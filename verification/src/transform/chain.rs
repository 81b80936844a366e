//! A sequence of transformations to apply to an image: parsing, chain-level
//! validation, and execution.

use vstd::prelude::*;

use crate::mime::MimeType;
use crate::strutil::{spec_trim, trimmed_range};
use crate::transform::format::ImgFormat;
use crate::transform::imgio::{
    SizedImage, decode_image, decode_ok, encode_image, sniff_format, sniffed_format,
    to_outside_format,
};
use crate::transform::pixeldim::find_semi;
use crate::transform::transformers::{ImageTransformer, TransformerEnum};
use vstd::slice::slice_to_vec;

verus! {

/// What can go wrong when transforming raw bytes.
#[derive(Debug)]
pub enum TransformBytesError {
    /// We tried to transform non-image data; holds the offending MIME string
    NotAnImage(String),
    /// We encountered an error while processing an image; holds the codec's
    /// message
    ImageError(String),
}

impl TransformBytesError {
    /// A human-readable description of the error.
    pub fn message(&self) -> (r: String)
        ensures
            self matches TransformBytesError::NotAnImage(m) ==> r@ == m@
                + " is not a valid image type"@,
            self matches TransformBytesError::ImageError(m) ==> r@
                == "error while processing image: "@ + m@,
    {
        match self {
            TransformBytesError::NotAnImage(m) => {
                let mut out = m.clone();
                out.append(" is not a valid image type");
                out
            },
            TransformBytesError::ImageError(m) => {
                let mut out = String::from_str("error while processing image: ");
                out.append(m.as_str());
                out
            },
        }
    }
}

/// The steps of a chain string: segments split on `;`, trimmed, empty
/// segments skipped, each remaining segment one step token.
pub open spec fn spec_chain_steps(s: Seq<char>) -> Option<Seq<TransformerEnum>>
    decreases s.len(),
    via spec_chain_steps_decreases
{
    let k = crate::transform::pixeldim::spec_scan_semi(s);
    let seg = spec_trim(s.take(k));
    let head: Option<Seq<TransformerEnum>> = if seg.len() == 0 {
        Some(Seq::empty())
    } else {
        match TransformerEnum::spec_parse_step(seg) {
            Some(t) => Some(seq![t]),
            None => None,
        }
    };
    if k == s.len() {
        head
    } else {
        match (head, spec_chain_steps(s.skip(k + 1))) {
            (Some(h), Some(rest)) => Some(h + rest),
            _ => None,
        }
    }
}

#[via_fn]
proof fn spec_chain_steps_decreases(s: Seq<char>) {
    crate::transform::pixeldim::lemma_scan_semi(s);
}

/// How many `format(..)` steps a chain holds.
pub open spec fn spec_count_formats(steps: Seq<TransformerEnum>) -> int
    decreases steps.len(),
{
    if steps.len() == 0 {
        0
    } else {
        spec_count_formats(steps.drop_last()) + (match steps.last() {
            TransformerEnum::Format { .. } => 1int,
            _ => 0int,
        })
    }
}

/// Chain-level validity: at most one `format(..)` step, and if present it is
/// the last step.
pub open spec fn spec_chain_wf(steps: Seq<TransformerEnum>) -> bool {
    spec_count_formats(steps) <= 1 && (spec_count_formats(steps) == 1 ==> steps.last()
        matches TransformerEnum::Format { .. })
}

/// What a whole chain string parses to: its steps, if every segment parses
/// and the chain shape is valid.
pub open spec fn spec_parse_chain(s: Seq<char>) -> Option<Seq<TransformerEnum>> {
    match spec_chain_steps(s) {
        Some(st) => if spec_chain_wf(st) {
            Some(st)
        } else {
            None
        },
        None => None,
    }
}

/// The dimension relation of one chain step: geometric steps relate input
/// to output dimensions as their transformers state; `format(..)` leaves the
/// image alone during the pass.
pub open spec fn spec_step_dims_ok(step: TransformerEnum, from: (u32, u32), to: (u32, u32)) -> bool {
    match step {
        TransformerEnum::MaxDim(t) => t.transform_dims_ok(from, to),
        TransformerEnum::Crop(c) => c.transform_dims_ok(from, to),
        TransformerEnum::Format { .. } => to == from,
    }
}

/// The dimension relation of a whole chain: the composition of its steps'
/// relations, in order.
pub open spec fn spec_chain_dims_ok(
    steps: Seq<TransformerEnum>,
    from: (u32, u32),
    to: (u32, u32),
) -> bool
    decreases steps.len(),
{
    if steps.len() == 0 {
        to == from
    } else {
        exists|mid: (u32, u32)|
            #[trigger] spec_step_dims_ok(steps[0], from, mid) && spec_chain_dims_ok(
                steps.drop_first(),
                mid,
                to,
            )
    }
}

/// Extending a chain by one step composes their dimension relations.
proof fn lemma_chain_dims_snoc(
    steps: Seq<TransformerEnum>,
    step: TransformerEnum,
    d0: (u32, u32),
    d1: (u32, u32),
    d2: (u32, u32),
)
    requires
        spec_chain_dims_ok(steps, d0, d1),
        spec_step_dims_ok(step, d1, d2),
    ensures
        spec_chain_dims_ok(steps.push(step), d0, d2),
    decreases steps.len(),
{
    let whole = steps.push(step);
    if steps.len() == 0 {
        assert(whole[0] == step);
        assert(whole.drop_first() =~= Seq::<TransformerEnum>::empty());
        assert(spec_step_dims_ok(whole[0], d0, d2) && spec_chain_dims_ok(
            whole.drop_first(),
            d2,
            d2,
        ));
    } else {
        let mid = choose|mid: (u32, u32)|
            #[trigger] spec_step_dims_ok(steps[0], d0, mid) && spec_chain_dims_ok(
                steps.drop_first(),
                mid,
                d1,
            );
        assert(whole[0] == steps[0]);
        assert(whole.drop_first() =~= steps.drop_first().push(step));
        lemma_chain_dims_snoc(steps.drop_first(), step, mid, d1, d2);
        assert(spec_step_dims_ok(whole[0], d0, mid) && spec_chain_dims_ok(
            whole.drop_first(),
            mid,
            d2,
        ));
    }
}

/// A sequence of transformations to apply to an image.
#[derive(Debug)]
pub struct TransformerChain {
    /// The steps, in application order.
    pub steps: Vec<TransformerEnum>,
}

/// Parse the chain segments of `s` starting at `pos`.
fn parse_segments(s: &str, pos: usize) -> (r: Result<Vec<TransformerEnum>, String>)
    requires
        pos <= s@.len(),
    ensures
        r matches Ok(v) ==> spec_chain_steps(s@.skip(pos as int)) == Some(v@),
        r is Err ==> spec_chain_steps(s@.skip(pos as int)) is None,
    decreases s@.len() - pos,
{
    let ghost whole = s@.skip(pos as int);
    let n = s.unicode_len();
    let k = find_semi(s, pos, n);
    let (a, b) = trimmed_range(s, pos, k);
    proof {
        assert(whole.take(k - pos) =~= s@.subrange(pos as int, k as int));
    }
    let mut v: Vec<TransformerEnum> = Vec::new();
    if a != b {
        let seg = s.substring_char(a, b);
        match TransformerEnum::from_str(seg) {
            Ok(t) => {
                v.push(t);
            },
            Err(e) => {
                let mut msg = String::from_str("invalid step `");
                msg.append(seg);
                msg.append("`: ");
                msg.append(e.as_str());
                return Err(msg);
            },
        }
    }
    if k == n {
        proof {
            if a == b {
                assert(v@ =~= Seq::<TransformerEnum>::empty());
            } else {
                assert(v@ =~= seq![v@[0]]);
            }
        }
        return Ok(v);
    }
    match parse_segments(s, k + 1) {
        Ok(mut rest) => {
            proof {
                assert(whole.skip(k - pos + 1) =~= s@.skip(k + 1));
                if a == b {
                    assert(v@ =~= Seq::<TransformerEnum>::empty());
                } else {
                    assert(v@ =~= seq![v@[0]]);
                }
            }
            let ghost pre = v@;
            let ghost tail = rest@;
            v.append(&mut rest);
            proof {
                assert(v@ == pre + tail);
            }
            Ok(v)
        },
        Err(e) => {
            proof {
                assert(whole.skip(k - pos + 1) =~= s@.skip(k + 1));
            }
            Err(e)
        },
    }
}

impl TransformerChain {
    /// Parse a transform chain, such as `maxdim(100,100);format(png)`.
    /// A malformed step is reported before chain-shape errors; a chain with
    /// two `format` steps, or one anywhere but last, is refused.
    pub fn from_str(s: &str) -> (r: Result<TransformerChain, String>)
        ensures
            r matches Ok(c) ==> spec_parse_chain(s@) == Some(c.steps@) && spec_chain_wf(c.steps@),
            r is Err ==> spec_parse_chain(s@) is None,
    {
        proof {
            assert(s@.skip(0) =~= s@);
        }
        let steps = match parse_segments(s, 0) {
            Ok(v) => v,
            Err(e) => {
                return Err(e);
            },
        };
        // count format() steps
        let n = steps.len();
        let mut count: usize = 0;
        let mut i: usize = 0;
        while i < n
            invariant
                0 <= i <= n == steps@.len(),
                count == spec_count_formats(steps@.take(i as int)),
                count <= i,
            decreases n - i,
        {
            proof {
                assert(steps@.take(i + 1).drop_last() =~= steps@.take(i as int));
                assert(steps@.take(i + 1).last() == steps@[i as int]);
            }
            match steps[i] {
                TransformerEnum::Format { .. } => {
                    count += 1;
                },
                _ => {},
            }
            i += 1;
        }
        proof {
            assert(steps@.take(n as int) =~= steps@);
        }
        if count > 1 {
            return Err(String::from_str("provide at most one format()"));
        }
        if count == 1 {
            let is_last_format = match steps[n - 1] {
                TransformerEnum::Format { .. } => true,
                _ => false,
            };
            if !is_last_format {
                return Err(String::from_str("format() must be last"));
            }
        }
        Ok(TransformerChain { steps })
    }

    /// The canonical text of a chain: its steps joined with `;`.
    pub open spec fn spec_chain_string(steps: Seq<TransformerEnum>) -> Seq<char>
        decreases steps.len(),
    {
        if steps.len() == 0 {
            Seq::empty()
        } else if steps.len() == 1 {
            steps[0].spec_to_string()
        } else {
            Self::spec_chain_string(steps.drop_last()) + ";"@ + steps.last().spec_to_string()
        }
    }

    /// Render this chain, such as `maxdim(100,100);format(png)`.
    pub fn to_string(&self) -> (r: String)
        ensures
            r@ == Self::spec_chain_string(self.steps@),
    {
        let n = self.steps.len();
        let mut out = String::new();
        let mut i: usize = 0;
        proof {
            assert(self.steps@.take(0) =~= Seq::<TransformerEnum>::empty());
        }
        while i < n
            invariant
                n == self.steps@.len(),
                0 <= i <= n,
                out@ == Self::spec_chain_string(self.steps@.take(i as int)),
            decreases n - i,
        {
            if i > 0 {
                out.append(";");
            }
            out.append(self.steps[i].to_string().as_str());
            proof {
                assert(self.steps@.take(i + 1).drop_last() =~= self.steps@.take(i as int));
                assert(self.steps@.take(i + 1).last() == self.steps@[i as int]);
                if i == 0 {
                    assert(out@ == Self::spec_chain_string(self.steps@.take(1)));
                }
            }
            i += 1;
        }
        proof {
            assert(self.steps@.take(n as int) =~= self.steps@);
        }
        out
    }

    /// Whether `mime` names content the engine can transform.
    pub fn mime_is_image(mime: &MimeType) -> (r: bool)
        ensures
            r == (ImgFormat::spec_from_mime(mime) is Some),
    {
        ImgFormat::from_mime(mime).is_some()
    }

    /// The format the chain's output is encoded in, given the decoded
    /// format: the terminal `format(..)` step's target if present, else the
    /// input format.
    pub open spec fn spec_out_format(steps: Seq<TransformerEnum>, fmt: ImgFormat) -> ImgFormat {
        if steps.len() == 0 {
            fmt
        } else {
            match steps.last() {
                TransformerEnum::Format { format: f } => f,
                _ => fmt,
            }
        }
    }

    /// The MIME type this chain will produce when given an image of type
    /// `input_mime`, or `None` if that input cannot be transformed.
    pub open spec fn spec_output_mime(steps: Seq<TransformerEnum>, input_mime: MimeType) -> Option<
        MimeType,
    > {
        let m = if steps.len() == 0 {
            input_mime
        } else {
            match steps.last() {
                TransformerEnum::Format { format: f } => f.spec_to_mime(),
                _ => input_mime,
            }
        };
        if ImgFormat::spec_from_mime(&m) is Some {
            Some(m)
        } else {
            None
        }
    }

    /// The MIME type this chain produces for input of type `input_mime`.
    /// `None` means the input cannot be transformed.
    pub fn output_mime(&self, input_mime: &MimeType) -> (r: Option<MimeType>)
        ensures
            r == Self::spec_output_mime(self.steps@, *input_mime),
    {
        let n = self.steps.len();
        let m: MimeType;
        if n > 0 {
            match self.steps[n - 1] {
                TransformerEnum::Format { format } => {
                    m = format.to_mime();
                },
                _ => {
                    m = input_mime.clone();
                },
            }
        } else {
            m = input_mime.clone();
        }
        if ImgFormat::from_mime(&m).is_some() {
            Some(m)
        } else {
            None
        }
    }

    /// Transform the given decoded image using this chain, executing the
    /// steps strictly in parsed order. `format(..)` steps do nothing here:
    /// they only pick the output encoding. The result's dimensions are
    /// related to the input's by the composition of the steps' dimension
    /// relations.
    pub fn transform_image(&self, image: SizedImage) -> (r: SizedImage)
        ensures
            spec_chain_dims_ok(
                self.steps@,
                (image.spec_width(), image.spec_height()),
                (r.spec_width(), r.spec_height()),
            ),
    {
        let mut img = image;
        let ghost d0 = (img.spec_width(), img.spec_height());
        let n = self.steps.len();
        let mut i: usize = 0;
        proof {
            assert(self.steps@.take(0) =~= Seq::<TransformerEnum>::empty());
        }
        while i < n
            invariant
                n == self.steps@.len(),
                0 <= i <= n,
                spec_chain_dims_ok(
                    self.steps@.take(i as int),
                    d0,
                    (img.spec_width(), img.spec_height()),
                ),
            decreases n - i,
        {
            let ghost dcur = (img.spec_width(), img.spec_height());
            match self.steps[i] {
                TransformerEnum::Format { .. } => {},
                TransformerEnum::MaxDim(t) => {
                    t.transform(&mut img);
                },
                TransformerEnum::Crop(t) => {
                    t.transform(&mut img);
                },
            }
            proof {
                let dnew = (img.spec_width(), img.spec_height());
                assert(spec_step_dims_ok(self.steps@[i as int], dcur, dnew));
                lemma_chain_dims_snoc(
                    self.steps@.take(i as int),
                    self.steps@[i as int],
                    d0,
                    dcur,
                    dnew,
                );
                assert(self.steps@.take(i + 1) =~= self.steps@.take(i as int).push(
                    self.steps@[i as int],
                ));
            }
            i += 1;
        }
        proof {
            assert(self.steps@.take(n as int) =~= self.steps@);
        }
        img
    }

    /// Transform `image_bytes` using this chain. Returns
    /// `(output_type, output_bytes)`.
    ///
    /// `image_format` tells us the type of `image_bytes`; if it is `None`,
    /// the format is sniffed from the bytes. An empty chain hands the bytes
    /// back untouched, without decoding or re-encoding.
    pub fn transform_bytes(&self, image_bytes: &[u8], image_format: Option<&MimeType>) -> (r:
        Result<(MimeType, Vec<u8>), TransformBytesError>)
        ensures
            (match r {
                Err(TransformBytesError::NotAnImage(_)) => true,
                _ => false,
            }) <==> (match image_format {
                Some(m) => ImgFormat::spec_from_mime(m) is None,
                None => false,
            }),
            match r {
                Err(TransformBytesError::NotAnImage(msg)) => match image_format {
                    Some(m) => msg@ == m.spec_canonical(),
                    None => false,
                },
                _ => true,
            },
            (self.steps@.len() == 0 && match image_format {
                Some(m) => ImgFormat::spec_from_mime(m) is Some,
                None => false,
            }) ==> r is Ok,
            self.steps@.len() == 0 ==> match r {
                Ok(p) => p.1@ == image_bytes@,
                _ => true,
            },
            match r {
                Ok(p) => match image_format {
                    Some(m) => match ImgFormat::spec_from_mime(m) {
                        Some(f) => p.0 == Self::spec_out_format(self.steps@, f).spec_to_mime(),
                        None => true,
                    },
                    None => true,
                },
                _ => true,
            },
            match r {
                Ok(p) => self.steps@.len() > 0 ==> match self.steps@.last() {
                    TransformerEnum::Format { format: f } => p.0 == f.spec_to_mime(),
                    _ => true,
                },
                _ => true,
            },
            (image_format is None && sniffed_format(image_bytes@) is None) ==> (r matches Err(
                TransformBytesError::ImageError(_),
            )),
            (self.steps@.len() == 0 && image_format is None && sniffed_format(image_bytes@)
                is Some) ==> r is Ok,
            match r {
                Ok(p) => image_format is None ==> match sniffed_format(image_bytes@) {
                    Some(f) => p.0 == Self::spec_out_format(self.steps@, f).spec_to_mime(),
                    None => false,
                },
                _ => true,
            },
            (self.steps@.len() > 0 && match image_format {
                Some(m) => match ImgFormat::spec_from_mime(m) {
                    Some(f) => !decode_ok(image_bytes@, f),
                    None => false,
                },
                None => match sniffed_format(image_bytes@) {
                    Some(f) => !decode_ok(image_bytes@, f),
                    None => false,
                },
            }) ==> (r matches Err(TransformBytesError::ImageError(_))),
            match r {
                Ok(_) => self.steps@.len() > 0 ==> match image_format {
                    Some(m) => match ImgFormat::spec_from_mime(m) {
                        Some(f) => decode_ok(image_bytes@, f),
                        None => true,
                    },
                    None => match sniffed_format(image_bytes@) {
                        Some(f) => decode_ok(image_bytes@, f),
                        None => true,
                    },
                },
                _ => true,
            },
    {
        let fmt: ImgFormat = match image_format {
            Some(m) => {
                match ImgFormat::from_mime(m) {
                    Some(f) => f,
                    None => {
                        return Err(TransformBytesError::NotAnImage(m.to_string()));
                    },
                }
            },
            None => {
                match sniff_format(image_bytes) {
                    Ok(Some(f)) => f,
                    Ok(None) => {
                        return Err(
                            TransformBytesError::ImageError(
                                String::from_str("unsupported image format"),
                            ),
                        );
                    },
                    Err(e) => {
                        return Err(TransformBytesError::ImageError(e));
                    },
                }
            },
        };
        let n = self.steps.len();
        let out_fmt: ImgFormat;
        if n > 0 {
            match self.steps[n - 1] {
                TransformerEnum::Format { format } => {
                    out_fmt = format;
                },
                _ => {
                    out_fmt = fmt;
                },
            }
        } else {
            out_fmt = fmt;
        }
        if n == 0 {
            // empty chain: pass the bytes through untouched
            return Ok((fmt.to_mime(), slice_to_vec(image_bytes)));
        }
        let img = match decode_image(image_bytes, fmt) {
            Ok(img) => img,
            Err(e) => {
                return Err(TransformBytesError::ImageError(e));
            },
        };
        let img = self.transform_image(img);
        match encode_image(&img, to_outside_format(out_fmt)) {
            Ok(bytes) => Ok((out_fmt.to_mime(), bytes)),
            Err(e) => Err(TransformBytesError::ImageError(e)),
        }
    }
}

} // verus!
