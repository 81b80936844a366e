//! The [`Servable`] trait, and a few route types that implement it.

use vstd::prelude::*;

use crate::types::{RenderContext, RenderMeta, Rendered, RenderedBody};

mod asset;
pub use asset::StaticAsset;

mod html;
pub use html::{PageMetadata, ScriptSource};

mod redirect;
pub use redirect::{Redirect, RedirectCode, header_value_ok, spec_header_value_char_ok, spec_header_value_ok};

verus! {

/// Something that may be served over http. If implementing this trait, refer
/// to the sample implementations in [`Redirect`] and [`StaticAsset`].
///
/// A route's `HEAD` and `GET` answers describe the same resource: both
/// report the metadata [`Servable::head_meta`] gives, except that a full
/// render may fall back to an error response where producing the body fails.
pub trait Servable: Send + Sync {
    /// The metadata (status, MIME, ttl, immutability) this route reports for
    /// a request. Every implementation overrides this; the default body only
    /// frees implementations outside the verified build from providing one,
    /// and promises nothing useful by itself.
    open spec fn head_meta(&self, ctx: &RenderContext) -> RenderMeta {
        RenderMeta { code: 0u16, mime: None, ttl: None, immutable: false }
    }

    /// The headers this route sets itself for a request. Every
    /// implementation overrides this, as with [`Servable::head_meta`].
    open spec fn head_headers(&self, ctx: &RenderContext) -> Map<Seq<char>, Seq<char>> {
        Map::<Seq<char>, Seq<char>>::empty()
    }

    /// Whether a full render may report `m` instead of
    /// [`Servable::head_meta`]: the error metadata of a failure that only
    /// producing the body can run into. Such a response carries no headers
    /// of its own.
    open spec fn render_fallback(&self, ctx: &RenderContext, m: RenderMeta) -> bool {
        false
    }

    /// Return the same response as [`Servable::render`], but with an empty
    /// body.
    ///
    /// This method is used to respond to `HEAD` requests.
    fn head(&self, ctx: &RenderContext) -> (r: Rendered<()>)
        ensures
            r.spec_meta() == self.head_meta(ctx),
            r.headers@ == self.head_headers(ctx),
    ;

    /// Render this page. Reports the same metadata as [`Servable::head`],
    /// except where producing the body fails.
    ///
    /// This method is used to respond to `GET` requests.
    fn render(&self, ctx: &RenderContext) -> (r: Rendered<RenderedBody>)
        ensures
            (r.spec_meta() == self.head_meta(ctx) && r.headers@ == self.head_headers(ctx)) || (
            self.render_fallback(ctx, r.spec_meta()) && r.headers@ == Map::<
                Seq<char>,
                Seq<char>,
            >::empty()),
    ;
}

/// A [`Servable`] and the route it is available at.
pub struct ServableWithRoute<S: Servable> {
    /// The resource
    servable: S,
    /// The route this resource is available at
    route: String,
}

impl<S: Servable> ServableWithRoute<S> {
    /// The route this resource is served under.
    pub closed spec fn spec_route(&self) -> Seq<char> {
        self.route@
    }

    /// The resource itself.
    pub closed spec fn spec_servable(&self) -> &S {
        &self.servable
    }

    /// Create a new [`ServableWithRoute`].
    pub fn new(route: String, servable: S) -> (r: Self)
        ensures
            r.spec_route() == route@,
            r.spec_servable() == servable,
    {
        Self { servable, route }
    }

    /// Get the route associated with this resource.
    pub fn route(&self) -> (r: &str)
        ensures
            r@ == self.spec_route(),
    {
        self.route.as_str()
    }
}

impl<S: Servable> Servable for ServableWithRoute<S> {
    open spec fn head_meta(&self, ctx: &RenderContext) -> RenderMeta {
        self.spec_servable().head_meta(ctx)
    }

    open spec fn head_headers(&self, ctx: &RenderContext) -> Map<Seq<char>, Seq<char>> {
        self.spec_servable().head_headers(ctx)
    }

    open spec fn render_fallback(&self, ctx: &RenderContext, m: RenderMeta) -> bool {
        self.spec_servable().render_fallback(ctx, m)
    }

    fn head(&self, ctx: &RenderContext) -> (r: Rendered<()>) {
        self.servable.head(ctx)
    }

    fn render(&self, ctx: &RenderContext) -> (r: Rendered<RenderedBody>) {
        self.servable.render(ctx)
    }
}

impl<S: Servable> Servable for &'static S {
    open spec fn head_meta(&self, ctx: &RenderContext) -> RenderMeta {
        (**self).head_meta(ctx)
    }

    open spec fn head_headers(&self, ctx: &RenderContext) -> Map<Seq<char>, Seq<char>> {
        (**self).head_headers(ctx)
    }

    open spec fn render_fallback(&self, ctx: &RenderContext, m: RenderMeta) -> bool {
        (**self).render_fallback(ctx, m)
    }

    fn head(&self, ctx: &RenderContext) -> (r: Rendered<()>) {
        (**self).head(ctx)
    }

    fn render(&self, ctx: &RenderContext) -> (r: Rendered<RenderedBody>) {
        (**self).render(ctx)
    }
}

} // verus!
