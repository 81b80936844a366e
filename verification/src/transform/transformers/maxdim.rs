//! Scale an image down until it fits in a bounding box.

use vstd::prelude::*;

use crate::transform::imgio::{SizedImage, resize_dims_of, resize_image, spec_dim_floor};
use crate::transform::pixeldim::{PixelDim, find_comma, spec_scan_comma};
use crate::transform::transformers::ImageTransformer;

verus! {

/// Scale an image until it fits in a configured bounding box.
///
/// Images are never scaled up, and aspect ratio is preserved: one uniform
/// ratio, the smaller of the two per-axis ratios, is applied to both axes.
/// A percentage of the opposite axis leaves that bound unconstrained.
#[derive(Debug, Clone, Copy, PartialEq, Eq, Structural)]
pub struct MaxDimTransformer {
    /// The width bound
    pub w: PixelDim,
    /// The height bound
    pub h: PixelDim,
}

/// The scale ratio `num / den` that [`MaxDimTransformer`] applies, given the
/// resolved bounds. Chosen as the smaller of the constrained per-axis
/// ratios.
pub open spec fn spec_ratio(mw: Option<u32>, mh: Option<u32>, img_w: u32, img_h: u32) -> (
    int,
    int,
) {
    match (mw, mh) {
        (Some(a), Some(b)) => if a * img_h <= b * img_w {
            (a as int, img_w as int)
        } else {
            (b as int, img_h as int)
        },
        (Some(a), None) => (a as int, img_w as int),
        (None, Some(b)) => (b as int, img_h as int),
        (None, None) => (1, 1),
    }
}

impl MaxDimTransformer {
    /// Create a new [`MaxDimTransformer`] that scales an image down until it
    /// fits in a box of dimension `w` x `h`.
    ///
    /// Images are never scaled up.
    pub fn new(w: PixelDim, h: PixelDim) -> (r: Self)
        ensures
            r == (MaxDimTransformer { w, h }),
    {
        Self { w, h }
    }

    /// The dimensions an image of the given size is scaled to: unchanged if
    /// it fits both bounds (or is empty), otherwise both axes scaled by the
    /// smaller constrained ratio, truncating.
    pub open spec fn spec_target_dim(&self, img_w: u32, img_h: u32) -> (u32, u32) {
        let mw = self.w.spec_width_bound(img_w);
        let mh = self.h.spec_height_bound(img_h);
        let w_fits = match mw {
            Some(b) => img_w <= b,
            None => true,
        };
        let h_fits = match mh {
            Some(b) => img_h <= b,
            None => true,
        };
        if img_w == 0 || img_h == 0 || (w_fits && h_fits) {
            (img_w, img_h)
        } else {
            let (num, den) = spec_ratio(mw, mh, img_w, img_h);
            (((img_w * num) / den) as u32, ((img_h * num) / den) as u32)
        }
    }

    /// The dimensions an image of the given size is scaled to.
    pub fn target_dim(&self, img_w: u32, img_h: u32) -> (r: (u32, u32))
        ensures
            r == self.spec_target_dim(img_w, img_h),
    {
        let mw = self.w.width_bound(img_w);
        let mh = self.h.height_bound(img_h);
        let w_fits = match mw {
            Some(b) => img_w <= b,
            None => true,
        };
        let h_fits = match mh {
            Some(b) => img_h <= b,
            None => true,
        };
        if img_w == 0 || img_h == 0 || (w_fits && h_fits) {
            return (img_w, img_h);
        }
        let num: u32;
        let den: u32;
        match (mw, mh) {
            (Some(a), Some(b)) => {
                proof {
                    mul_fits_u64(a, img_h);
                    mul_fits_u64(b, img_w);
                }
                if (a as u64) * (img_h as u64) <= (b as u64) * (img_w as u64) {
                    num = a;
                    den = img_w;
                } else {
                    num = b;
                    den = img_h;
                }
            },
            (Some(a), None) => {
                num = a;
                den = img_w;
            },
            (None, Some(b)) => {
                num = b;
                den = img_h;
            },
            (None, None) => {
                num = 1;
                den = 1;
            },
        }
        proof {
            mul_fits_u64(img_w, num);
            mul_fits_u64(img_h, num);
            match (mw, mh) {
                (Some(a), Some(b)) => {
                    if a * img_h <= b * img_w {
                        lemma_cross_ratio_le(a, b, img_w, img_h);
                    } else {
                        lemma_cross_ratio_le(b, a, img_h, img_w);
                    }
                },
                _ => {},
            }
            assert(num <= den);
            div_scale_bound(img_w as int, num as int, den as int);
            div_scale_bound(img_h as int, num as int, den as int);
        }
        let tw = ((img_w as u64) * (num as u64) / (den as u64)) as u32;
        let th = ((img_h as u64) * (num as u64) / (den as u64)) as u32;
        (tw, th)
    }
}

/// If `a / w` is the smaller of two ratios and at least one bound is
/// violated, that smaller ratio is at most one.
proof fn lemma_cross_ratio_le(a: u32, b: u32, w: u32, h: u32)
    requires
        0 < w,
        0 < h,
        a * h <= b * w,
        !(w <= a && h <= b),
    ensures
        a <= w,
{
    assert(a <= w) by (nonlinear_arith)
        requires
            0 < w,
            0 < h,
            a * h <= b * w,
            !(w <= a && h <= b),
    ;
}

/// The product of two `u32` values fits in a `u64`.
proof fn mul_fits_u64(a: u32, b: u32)
    ensures
        a * b <= u64::MAX,
{
    assert(a * b <= u64::MAX) by (nonlinear_arith)
        requires
            a <= u32::MAX,
            b <= u32::MAX,
    ;
}

/// Scaling down by `num / den` with `num <= den` cannot grow a value.
proof fn div_scale_bound(x: int, num: int, den: int)
    requires
        0 <= x,
        0 <= num <= den,
        0 < den,
    ensures
        0 <= (x * num) / den <= x,
{
    assert(0 <= (x * num) / den <= x) by (nonlinear_arith)
        requires
            0 <= x,
            0 <= num <= den,
            0 < den,
    ;
}

impl ImageTransformer for MaxDimTransformer {
    /// An image already within bounds is untouched; otherwise the result is
    /// exactly what resizing to the computed target produces: at most the
    /// target on each axis and never less than one pixel.
    open spec fn transform_dims_ok(&self, from: (u32, u32), to: (u32, u32)) -> bool {
        let t = self.spec_target_dim(from.0, from.1);
        if t == from {
            to == from
        } else {
            to == resize_dims_of(from.0, from.1, t.0, t.1) && 1 <= to.0 <= spec_dim_floor(t.0) && 1
                <= to.1 <= spec_dim_floor(t.1)
        }
    }

    fn transform(&self, input: &mut SizedImage) {
        let img_w = input.width();
        let img_h = input.height();
        let (tw, th) = self.target_dim(img_w, img_h);
        // Only resize if needed
        if tw != img_w || th != img_h {
            *input = resize_image(&*input, tw, th);
        }
    }

    fn parse_args(args: &str) -> Result<Self, String> {
        MaxDimTransformer::parse_args_checked(args)
    }
}

impl MaxDimTransformer {
    /// What a `maxdim` argument list parses to: exactly two dimension
    /// tokens, separated by a comma, neither trimmed.
    pub open spec fn spec_parse_args(s: Seq<char>) -> Option<MaxDimTransformer> {
        let c = spec_scan_comma(s);
        if c == s.len() {
            None
        } else {
            let p0 = s.take(c);
            let p1 = s.skip(c + 1);
            if spec_scan_comma(p1) != p1.len() {
                None
            } else {
                match (PixelDim::spec_parse(p0), PixelDim::spec_parse(p1)) {
                    (Some(w), Some(h)) => Some(MaxDimTransformer { w, h }),
                    _ => None,
                }
            }
        }
    }

    /// Parse a `maxdim` argument list, such as `100,50` or `50vw,100`.
    pub fn parse_args_checked(args: &str) -> (r: Result<MaxDimTransformer, String>)
        ensures
            r matches Ok(t) ==> Self::spec_parse_args(args@) == Some(t),
            r is Err ==> Self::spec_parse_args(args@) is None,
    {
        let n = args.unicode_len();
        let c1 = find_comma(args, 0, n);
        proof {
            assert(args@.skip(0) =~= args@);
        }
        if c1 == n {
            return Err(String::from_str("expected 2 args"));
        }
        let c2 = find_comma(args, c1 + 1, n);
        if c2 < n {
            return Err(String::from_str("expected 2 args"));
        }
        let p0 = args.substring_char(0, c1);
        let p1 = args.substring_char(c1 + 1, n);
        proof {
            assert(p0@ =~= args@.take(c1 as int));
            assert(p1@ =~= args@.skip(c1 + 1));
        }
        let w = match PixelDim::from_str(p0) {
            Ok(w) => w,
            Err(e) => {
                return Err(e);
            },
        };
        let h = match PixelDim::from_str(p1) {
            Ok(h) => h,
            Err(e) => {
                return Err(e);
            },
        };
        Ok(MaxDimTransformer { w, h })
    }
}

} // verus!
