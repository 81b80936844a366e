//! A static blob of bytes, optionally transformed on the fly when it is an
//! image and the request asks for it.

use vstd::prelude::*;

use crate::mime::MimeType;
use crate::servable::Servable;
use crate::transform::spec_parse_chain;
use crate::transform::ImgFormat;
use crate::transform::TransformBytesError;
use crate::transform::TransformerChain;
use crate::transform::lemma_format_mime_roundtrip;
use crate::types::{RenderContext, RenderMeta, Rendered, RenderedBody, StrMap};

verus! {

/// Default ttl of a [`StaticAsset`], in seconds: fourteen days.
pub const DEFAULT_TTL: i64 = 14 * 86400;

/// A static blob of bytes.
///
/// When the asset is an image and the request carries a `t` query parameter,
/// rendering runs the bytes through the transform chain that parameter
/// describes; for any other asset the parameter is ignored and the bytes are
/// served as they are.
pub struct StaticAsset {
    /// The data to return
    pub bytes: &'static [u8],
    /// The type of `bytes`
    pub mime: MimeType,
    /// How long to cache this response, in seconds. If `None`, never cache.
    pub ttl: Option<i64>,
}

impl StaticAsset {
    /// Set `self.ttl`.
    pub fn with_ttl(self, ttl: Option<i64>) -> (r: Self)
        ensures
            r.bytes == self.bytes,
            r.mime == self.mime,
            r.ttl == ttl,
    {
        Self { ttl, ..self }
    }

    /// The transform chain the request asks for, if this asset is an image
    /// and a `t` parameter is present.
    pub open spec fn spec_wants_transform(&self, ctx: &RenderContext) -> bool {
        ImgFormat::spec_from_mime(&self.mime) is Some && ctx.query@.contains_key("t"@)
    }
}

impl Servable for StaticAsset {
    open spec fn head_meta(&self, ctx: &RenderContext) -> RenderMeta {
        if !self.spec_wants_transform(ctx) {
            RenderMeta { code: 200u16, mime: Some(self.mime), ttl: self.ttl, immutable: false }
        } else {
            match spec_parse_chain(ctx.query@["t"@]) {
                None => RenderMeta { code: 400u16, mime: None, ttl: self.ttl, immutable: false },
                Some(steps) => RenderMeta {
                    code: 200u16,
                    mime: Some(
                        match TransformerChain::spec_output_mime(steps, self.mime) {
                            Some(m) => m,
                            None => self.mime,
                        },
                    ),
                    ttl: self.ttl,
                    immutable: false,
                },
            }
        }
    }

    open spec fn head_headers(&self, ctx: &RenderContext) -> Map<Seq<char>, Seq<char>> {
        Map::<Seq<char>, Seq<char>>::empty()
    }

    open spec fn render_fallback(&self, ctx: &RenderContext, m: RenderMeta) -> bool {
        self.spec_wants_transform(ctx) && (match spec_parse_chain(ctx.query@["t"@]) {
            Some(steps) => steps.len() > 0 && exists|c: TransformerChain, rr: Result<
                (MimeType, Vec<u8>),
                TransformBytesError,
            >|
                c.steps@ == steps && #[trigger] call_ensures(
                    TransformerChain::transform_bytes,
                    (&c, self.bytes, Some(&self.mime)),
                    rr,
                ) && rr is Err,
            None => false,
        }) && m == (RenderMeta { code: 500u16, mime: None, ttl: self.ttl, immutable: false })
    }

    fn head(&self, ctx: &RenderContext) -> (r: Rendered<()>) {
        let is_image = TransformerChain::mime_is_image(&self.mime);
        let tval = match (is_image, ctx.query.get("t")) {
            (false, _) | (_, None) => {
                return Rendered {
                    code: 200,
                    headers: StrMap::new(),
                    body: (),
                    mime: Some(self.mime.clone()),
                    ttl: self.ttl,
                    immutable: false,
                };
            },
            (true, Some(x)) => x,
        };
        match TransformerChain::from_str(tval.as_str()) {
            Err(_) => Rendered {
                code: 400,
                headers: StrMap::new(),
                body: (),
                mime: None,
                ttl: self.ttl,
                immutable: false,
            },
            Ok(chain) => {
                let out = chain.output_mime(&self.mime);
                let m = match out {
                    Some(m) => m,
                    None => self.mime.clone(),
                };
                Rendered {
                    code: 200,
                    headers: StrMap::new(),
                    body: (),
                    mime: Some(m),
                    ttl: self.ttl,
                    immutable: false,
                }
            },
        }
    }

    fn render(&self, ctx: &RenderContext) -> (r: Rendered<RenderedBody>)
        ensures
            !self.spec_wants_transform(ctx) ==> (r.body matches RenderedBody::Static(b) && b@
                == self.bytes@),
            self.spec_wants_transform(ctx) && spec_parse_chain(ctx.query@["t"@]) == Some(
                Seq::<crate::transform::transformers::TransformerEnum>::empty(),
            ) ==> (r.code == 200 && (r.body matches RenderedBody::Bytes(b) && b@ == self.bytes@)),
            self.spec_wants_transform(ctx) && spec_parse_chain(ctx.query@["t"@]) is None
                ==> r.body is String,
            self.spec_wants_transform(ctx) ==> match spec_parse_chain(ctx.query@["t"@]) {
                Some(steps) => exists|c: TransformerChain, rr: Result<
                    (MimeType, Vec<u8>),
                    TransformBytesError,
                >|
                    c.steps@ == steps && #[trigger] call_ensures(
                        TransformerChain::transform_bytes,
                        (&c, self.bytes, Some(&self.mime)),
                        rr,
                    ) && match rr {
                        Ok(p) => r.code == 200 && r.mime == Some(p.0) && (r.body
                            matches RenderedBody::Bytes(b) && b@ == p.1@),
                        Err(_) => r.code == 500 && r.mime is None && r.body is String,
                    },
                None => true,
            },
    {
        let is_image = TransformerChain::mime_is_image(&self.mime);
        let tval = match (is_image, ctx.query.get("t")) {
            (false, _) | (_, None) => {
                return Rendered {
                    code: 200,
                    headers: StrMap::new(),
                    body: RenderedBody::Static(self.bytes),
                    mime: Some(self.mime.clone()),
                    ttl: self.ttl,
                    immutable: false,
                };
            },
            (true, Some(x)) => x,
        };
        match TransformerChain::from_str(tval.as_str()) {
            Err(err) => Rendered {
                code: 400,
                headers: StrMap::new(),
                body: RenderedBody::String(err),
                mime: None,
                ttl: self.ttl,
                immutable: false,
            },
            Ok(chain) => {
                let res = chain.transform_bytes(self.bytes, Some(&self.mime));
                let ghost res0 = res;
                proof {
                    assert(call_ensures(
                        TransformerChain::transform_bytes,
                        (&chain, self.bytes, Some(&self.mime)),
                        res0,
                    ));
                }
                match res {
                    Ok((mime, bytes)) => {
                        proof {
                            lemma_format_mime_roundtrip(
                                ImgFormat::spec_from_mime(&self.mime)->Some_0,
                                self.mime,
                            );
                        }
                        Rendered {
                            code: 200,
                            headers: StrMap::new(),
                            body: RenderedBody::Bytes(bytes),
                            mime: Some(mime),
                            ttl: self.ttl,
                            immutable: false,
                        }
                    },
                    Err(e) => Rendered {
                        code: 500,
                        headers: StrMap::new(),
                        body: RenderedBody::String(e.message()),
                        mime: None,
                        ttl: self.ttl,
                        immutable: false,
                    },
                }
            },
        }
    }
}

} // verus!
