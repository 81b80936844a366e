//! Servable: a verified core for a small HTTP response library.
//!
//! A route is anything that implements [`Servable`]: it can describe its
//! response without a body (for `HEAD`) and produce the full response (for
//! `GET`), and the two must agree on status, MIME type, time-to-live and
//! immutability. [`ServableRouter`] dispatches normalized paths to exact-match
//! routes and finalizes caching headers. The `transform` module holds a small
//! DSL for on-the-fly image transformation of static assets.

pub mod mime;
mod router;
pub mod servable;
pub mod transform;
pub use router::{
    RequestMethod, ServableRouter, query_pairs_of, spec_default_404_meta, make_cache_control, normalize_route, spec_cache_control,
    spec_collapse_from, spec_finalize_headers, spec_needs_redirect, spec_normalize,
    spec_trim_slash, spec_valid_route, valid_route,
};
pub use router::{lemma_normalize_valid, lemma_valid_route_not_redirected};
mod types;
pub use types::{
    ClientInfo, DeviceType, RenderContext, RenderMeta, Rendered, RenderedBody, RenderedBodyType,
    StrMap, spec_as_map, spec_keys_unique, spec_pair_views,
};
pub(crate) mod strutil;

use rand::distr::SampleString;
use vstd::prelude::*;

verus! {

/// Length of the cache-busting token produced by [`new_cache_bust_string`].
pub const CACHE_BUST_LEN: usize = 10;

/// Relies on `rand::distr::Alphanumeric::sample_string`, which appends
/// exactly `len` random ASCII letters or digits to an empty string. The
/// result is random, so nothing is promised beyond its length.
#[verifier::external_body]
pub fn new_cache_bust_string() -> (r: String)
    ensures
        r@.len() == CACHE_BUST_LEN,
{
    rand::distr::Alphanumeric.sample_string(&mut rand::rng(), CACHE_BUST_LEN)
}

} // verus!
