//! A simple http redirect.

use vstd::prelude::*;

use crate::servable::Servable;
use crate::types::{RenderContext, RenderMeta, Rendered, RenderedBody, StrMap};

verus! {

/// Which redirect status a [`Redirect`] answers with.
#[derive(Debug, Clone, Copy, PartialEq, Eq, Structural)]
pub enum RedirectCode {
    /// Reply with an http 307 (temporary redirect)
    Http307,
    /// Reply with an http 308 (permanent redirect)
    Http308,
}

impl RedirectCode {
    /// The status code value.
    pub open spec fn spec_status(&self) -> u16 {
        match *self {
            RedirectCode::Http307 => 307u16,
            RedirectCode::Http308 => 308u16,
        }
    }
}

/// Whether `c` may appear in an http header value: horizontal tab or any
/// character that is not an ASCII control character.
pub open spec fn spec_header_value_char_ok(c: char) -> bool {
    c == '\t' || (c as int >= 32 && c as int != 127)
}

/// Whether every character of `s` may appear in an http header value.
pub open spec fn spec_header_value_ok(s: Seq<char>) -> bool {
    forall|i: int| 0 <= i < s.len() ==> spec_header_value_char_ok(#[trigger] s[i])
}

/// Whether `s` can be sent as an http header value.
pub fn header_value_ok(s: &str) -> (r: bool)
    ensures
        r == spec_header_value_ok(s@),
{
    let n = s.unicode_len();
    let mut i: usize = 0;
    while i < n
        invariant
            n == s@.len(),
            0 <= i <= n,
            forall|j: int| 0 <= j < i ==> spec_header_value_char_ok(#[trigger] s@[j]),
        decreases n - i,
    {
        let c = s.get_char(i);
        if !(c == '\t' || (c as u32 >= 32 && c as u32 != 127)) {
            return false;
        }
        i += 1;
    }
    true
}

/// A simple http redirect.
pub struct Redirect {
    /// Where to redirect to; always a valid header value.
    to: String,
    /// Which status to answer with.
    code: RedirectCode,
}

impl Redirect {
    /// The target this redirect points at.
    pub closed spec fn spec_to(&self) -> Seq<char> {
        self.to@
    }

    /// The status this redirect answers with.
    pub closed spec fn spec_code(&self) -> RedirectCode {
        self.code
    }

    /// Create a new [`Redirect`] to the given route, answering with an http
    /// 308 (permanent redirect). Fails if `to` cannot be a header value.
    pub fn new(to: String) -> (r: Result<Self, String>)
        ensures
            r matches Ok(s) ==> spec_header_value_ok(to@) && s.spec_to() == to@ && s.spec_code()
                == RedirectCode::Http308,
            r is Err ==> !spec_header_value_ok(to@),
    {
        if header_value_ok(to.as_str()) {
            Ok(Self { to, code: RedirectCode::Http308 })
        } else {
            Err(String::from_str("invalid header value"))
        }
    }

    /// Create a new [`Redirect`] to the given route, answering with an http
    /// 307 (temporary redirect). Fails if `to` cannot be a header value.
    pub fn new_307(to: String) -> (r: Result<Self, String>)
        ensures
            r matches Ok(s) ==> spec_header_value_ok(to@) && s.spec_to() == to@ && s.spec_code()
                == RedirectCode::Http307,
            r is Err ==> !spec_header_value_ok(to@),
    {
        if header_value_ok(to.as_str()) {
            Ok(Self { to, code: RedirectCode::Http307 })
        } else {
            Err(String::from_str("invalid header value"))
        }
    }
}

impl Servable for Redirect {
    open spec fn head_meta(&self, ctx: &RenderContext) -> RenderMeta {
        RenderMeta { code: self.spec_code().spec_status(), mime: None, ttl: None, immutable: true }
    }

    open spec fn head_headers(&self, ctx: &RenderContext) -> Map<Seq<char>, Seq<char>> {
        Map::<Seq<char>, Seq<char>>::empty().insert("location"@, self.spec_to())
    }

    fn head(&self, ctx: &RenderContext) -> (r: Rendered<()>) {
        let headers = StrMap::new().insert("location", self.to.clone());
        let code: u16 = match self.code {
            RedirectCode::Http307 => 307,
            RedirectCode::Http308 => 308,
        };
        Rendered { code, headers, body: (), ttl: None, immutable: true, mime: None }
    }

    fn render(&self, ctx: &RenderContext) -> (r: Rendered<RenderedBody>)
        ensures
            r.body is Empty,
    {
        let head = self.head(ctx);
        head.with_body(RenderedBody::Empty)
    }
}

} // verus!
