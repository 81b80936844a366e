//! Defines all transformation steps we can apply to an image.

use vstd::prelude::*;

use crate::strutil::{spec_trim, str_eq, trimmed_range};
use crate::transform::format::ImgFormat;
use crate::transform::imgio::SizedImage;
use crate::transform::pixeldim::{find_open, spec_scan_open};

mod crop;
pub use crop::CropTransformer;
pub use crop::Direction;

mod maxdim;
pub use maxdim::MaxDimTransformer;
pub use maxdim::spec_ratio;

verus! {

/// A single transformation that may be applied to an image.
pub trait ImageTransformer where Self: Sized {
    /// How this step may change an image's dimensions: the relation between
    /// the dimensions before and after [`ImageTransformer::transform`].
    spec fn transform_dims_ok(&self, from: (u32, u32), to: (u32, u32)) -> bool;

    /// Transform the given image in place.
    fn transform(&self, input: &mut SizedImage)
        ensures
            self.transform_dims_ok(
                (old(input).spec_width(), old(input).spec_height()),
                (final(input).spec_width(), final(input).spec_height()),
            ),
    ;

    /// Parse an arg string.
    ///
    /// `name({arg_string})`
    fn parse_args(args: &str) -> Result<Self, String>;
}

/// An enum of all [`ImageTransformer`]s.
#[derive(Debug, Clone, Copy, PartialEq, Eq, Structural)]
pub enum TransformerEnum {
    /// Usage: `maxdim(w, h)`
    ///
    /// Scale the image down until its width is at most `w` and its height at
    /// most `h`, preserving aspect ratio. A percentage of the other axis
    /// (`vw` in the height slot, `vh` in the width slot) leaves that bound
    /// unconstrained.
    MaxDim(MaxDimTransformer),
    /// Usage: `crop(w, h, direction)`
    ///
    /// Crop the image to at most `w` by `h` pixels, floating the kept region
    /// in the given direction: one of `n`, `e`, `s`, `w`, `ne`, `nw`, `se`,
    /// `sw`, `c`, or their full words.
    Crop(CropTransformer),
    /// Usage: `format(ext)`
    ///
    /// Transcode the image to the format named by the file extension. This
    /// step must be last, and cannot appear more than once.
    Format {
        /// The format to produce
        format: ImgFormat,
    },
}

/// The index of the parenthesis that closes an open run starting at `i` with
/// balance `bal`, or the length if the parentheses are unbalanced.
pub open spec fn spec_match_paren(s: Seq<char>, i: int, bal: int) -> int
    decreases s.len() - i,
{
    if i < 0 || i >= s.len() {
        s.len() as int
    } else if s[i] == ')' && bal == 1 {
        i
    } else {
        let b2 = if s[i] == ')' {
            bal - 1
        } else if s[i] == '(' {
            bal + 1
        } else {
            bal
        };
        spec_match_paren(s, i + 1, b2)
    }
}

/// Find the parenthesis closing the one at `open`, or `n` if unbalanced.
#[verifier::loop_isolation(false)]
fn match_paren(s: &str, open: usize, n: usize) -> (r: usize)
    requires
        open < n == s@.len(),
    ensures
        open < r <= n,
        r as int == spec_match_paren(s@, open + 1, 1),
{
    let mut i = open + 1;
    let mut bal: usize = 1;
    while i < n
        invariant
            open + 1 <= i <= n,
            1 <= bal <= i - open,
            spec_match_paren(s@, open + 1, 1) == spec_match_paren(s@, i as int, bal as int),
        decreases n - i,
    {
        let c = s.get_char(i);
        if c == ')' {
            if bal == 1 {
                return i;
            }
            bal = bal - 1;
        } else if c == '(' {
            bal = bal + 1;
        }
        i += 1;
    }
    n
}

impl TransformerEnum {
    /// What a step token parses to: `name(args)` with balanced parentheses
    /// and no trailing text, where the name picks the transformer and its
    /// argument grammar.
    pub open spec fn spec_parse_step(s: Seq<char>) -> Option<TransformerEnum> {
        let t = spec_trim(s);
        let open = spec_scan_open(t);
        if open == t.len() {
            None
        } else {
            let close = spec_match_paren(t, open + 1, 1);
            if close == t.len() {
                None
            } else {
                let name = spec_trim(t.take(open));
                let args = spec_trim(t.subrange(open + 1, close));
                let trail = spec_trim(t.skip(close + 1));
                if trail.len() != 0 {
                    None
                } else if name == "maxdim"@ {
                    match MaxDimTransformer::spec_parse_args(args) {
                        Some(x) => Some(TransformerEnum::MaxDim(x)),
                        None => None,
                    }
                } else if name == "crop"@ {
                    match CropTransformer::spec_parse_args(args) {
                        Some(x) => Some(TransformerEnum::Crop(x)),
                        None => None,
                    }
                } else if name == "format"@ {
                    match ImgFormat::spec_from_extension(args) {
                        Some(f) => Some(TransformerEnum::Format { format: f }),
                        None => None,
                    }
                } else {
                    None
                }
            }
        }
    }

    /// Parse one step of a transform chain, such as `maxdim(100,100)`,
    /// `crop(50, 50, c)` or `format(png)`.
    pub fn from_str(s: &str) -> (r: Result<TransformerEnum, String>)
        ensures
            r matches Ok(t) ==> Self::spec_parse_step(s@) == Some(t),
            r is Err ==> Self::spec_parse_step(s@) is None,
    {
        let n = s.unicode_len();
        let (ta, tb) = trimmed_range(s, 0, n);
        let ghost t = spec_trim(s@);
        proof {
            assert(s@.subrange(0, n as int) =~= s@);
        }
        let open = find_open(s, ta, tb);
        proof {
            assert(t == s@.subrange(ta as int, tb as int));
            assert(forall|j: int| 0 <= j < t.len() ==> #[trigger] t[j] == s@[ta + j]);
        }
        if open == tb {
            return Err(String::from_str("must look like name(args)"));
        }
        let close = match_paren_in(s, open, ta, tb);
        if close == tb {
            return Err(String::from_str("mismatched parenthesis"));
        }
        let (na, nb) = trimmed_range(s, ta, open);
        let (aa, ab) = trimmed_range(s, open + 1, close);
        let (ra, rb) = trimmed_range(s, close + 1, tb);
        proof {
            assert(s@.subrange(ta as int, open as int) =~= t.take(open - ta));
            assert(s@.subrange(open + 1, close as int) =~= t.subrange(open - ta + 1, close - ta));
            assert(s@.subrange(close + 1, tb as int) =~= t.skip(close - ta + 1));
        }
        if ra != rb {
            return Err(String::from_str("must look like name(args)"));
        }
        let name = s.substring_char(na, nb);
        let args = s.substring_char(aa, ab);
        if str_eq(name, "maxdim") {
            match MaxDimTransformer::parse_args_checked(args) {
                Ok(x) => Ok(TransformerEnum::MaxDim(x)),
                Err(e) => Err(e),
            }
        } else if str_eq(name, "crop") {
            match CropTransformer::parse_args_checked(args) {
                Ok(x) => Ok(TransformerEnum::Crop(x)),
                Err(e) => Err(e),
            }
        } else if str_eq(name, "format") {
            match ImgFormat::from_extension(args) {
                Some(f) => Ok(TransformerEnum::Format { format: f }),
                None => Err(String::from_str("invalid image format")),
            }
        } else {
            Err(String::from_str("unknown transformation"))
        }
    }
}

/// Find the parenthesis closing the one at `open` inside the window
/// `[ta, tb)`, relating the result to the trimmed view.
#[verifier::loop_isolation(false)]
fn match_paren_in(s: &str, open: usize, ta: usize, tb: usize) -> (r: usize)
    requires
        ta <= open < tb <= s@.len(),
    ensures
        open < r <= tb,
        r - ta == spec_match_paren(s@.subrange(ta as int, tb as int), open - ta + 1, 1),
{
    let mut i = open + 1;
    let mut bal: usize = 1;
    let ghost t = s@.subrange(ta as int, tb as int);
    while i < tb
        invariant
            open + 1 <= i <= tb,
            1 <= bal <= i - open,
            spec_match_paren(t, open - ta + 1, 1) == spec_match_paren(
                t,
                i - ta,
                bal as int,
            ),
        decreases tb - i,
    {
        let c = s.get_char(i);
        proof {
            assert(t[i - ta] == s@[i as int]);
        }
        if c == ')' {
            if bal == 1 {
                return i;
            }
            bal = bal - 1;
        } else if c == '(' {
            bal = bal + 1;
        }
        i += 1;
    }
    tb
}

impl TransformerEnum {
    /// The canonical text of this step: its name and arguments, as the
    /// parser reads them back.
    pub open spec fn spec_to_string(&self) -> Seq<char> {
        match *self {
            TransformerEnum::MaxDim(t) => "maxdim("@ + t.w.spec_to_string() + ","@
                + t.h.spec_to_string() + ")"@,
            TransformerEnum::Crop(c) => "crop("@ + c.w.spec_to_string() + ","@
                + c.h.spec_to_string() + ","@ + c.float.spec_to_string() + ")"@,
            TransformerEnum::Format { format: f } => "format("@ + f.spec_extension() + ")"@,
        }
    }

    /// Render this step, such as `maxdim(100,50.00vh)` or `format(png)`.
    pub fn to_string(&self) -> (r: String)
        ensures
            r@ == self.spec_to_string(),
    {
        match *self {
            TransformerEnum::MaxDim(t) => {
                let mut s = String::from_str("maxdim(");
                s.append(t.w.to_string().as_str());
                s.append(",");
                s.append(t.h.to_string().as_str());
                s.append(")");
                s
            },
            TransformerEnum::Crop(c) => {
                let mut s = String::from_str("crop(");
                s.append(c.w.to_string().as_str());
                s.append(",");
                s.append(c.h.to_string().as_str());
                s.append(",");
                s.append(c.float.to_string().as_str());
                s.append(")");
                s
            },
            TransformerEnum::Format { format } => {
                let mut s = String::from_str("format(");
                s.append(format.extension());
                s.append(")");
                s
            },
        }
    }
}

} // verus!
