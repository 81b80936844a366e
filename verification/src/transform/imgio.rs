//! Trusted boundary to the `image` crate: decoding, encoding and geometric
//! operations on in-memory pixel buffers. Pixel contents are opaque to the
//! verified code; the geometry driving these calls is computed and verified
//! in the transformer modules.

use vstd::prelude::*;

use super::format::ImgFormat;

verus! {

/// The `image` crate's decoded pixel buffer, opaque to verification.
#[verifier::external_type_specification]
#[verifier::external_body]
pub struct ExDynamicImage(image::DynamicImage);

/// The `image` crate's container format enumeration, opaque to verification.
#[verifier::external_type_specification]
#[verifier::external_body]
pub struct ExImageFormat(image::ImageFormat);

/// A dimension bound as `resize` treats it: a zero bound still leaves one
/// pixel on that axis.
pub open spec fn spec_dim_floor(x: u32) -> u32 {
    if x == 0 {
        1u32
    } else {
        x
    }
}

/// A decoded image together with its dimensions.
///
/// The pixel contents stay opaque to verification. The stored dimensions
/// are exactly what `DynamicImage::width` and `height` report: every
/// trusted function of this module that produces a [`SizedImage`] fills
/// them from the wrapped image.
pub struct SizedImage {
    pub(crate) img: image::DynamicImage,
    width: u32,
    height: u32,
}

impl SizedImage {
    /// The image's width in pixels.
    pub closed spec fn spec_width(&self) -> u32 {
        self.width
    }

    /// The image's height in pixels.
    pub closed spec fn spec_height(&self) -> u32 {
        self.height
    }

    /// The image's width in pixels.
    pub fn width(&self) -> (r: u32)
        ensures
            r == self.spec_width(),
    {
        self.width
    }

    /// The image's height in pixels.
    pub fn height(&self) -> (r: u32)
        ensures
            r == self.spec_height(),
    {
        self.height
    }

    /// Wrap a decoded image, reading its dimensions. Relies on
    /// `DynamicImage::width` and `DynamicImage::height`.
    #[verifier::external_body]
    pub fn new(img: image::DynamicImage) -> (r: SizedImage) {
        let width = img.width();
        let height = img.height();
        SizedImage { img, width, height }
    }
}

/// The rectangle the `image` crate's crop keeps: `(x, y, w, h)` clipped to
/// the image's bounds, as `crop_dimms` computes it.
pub open spec fn spec_crop_clip(iw: u32, ih: u32, x: u32, y: u32, w: u32, h: u32) -> (u32, u32) {
    let xc: u32 = if x < iw {
        x
    } else {
        iw
    };
    let yc: u32 = if y < ih {
        y
    } else {
        ih
    };
    let wc: u32 = if w < (iw - xc) as u32 {
        w
    } else {
        (iw - xc) as u32
    };
    let hc: u32 = if h < (ih - yc) as u32 {
        h
    } else {
        (ih - yc) as u32
    };
    (wc, hc)
}

/// Relies on the variants of `image::ImageFormat`: maps each format of this
/// library to the crate's variant for it, one arm per variant.
#[verifier::external_body]
pub(crate) fn to_outside_format(f: ImgFormat) -> image::ImageFormat {
    match f {
        ImgFormat::Png => image::ImageFormat::Png,
        ImgFormat::Jpeg => image::ImageFormat::Jpeg,
        ImgFormat::Gif => image::ImageFormat::Gif,
        ImgFormat::WebP => image::ImageFormat::WebP,
        ImgFormat::Tiff => image::ImageFormat::Tiff,
        ImgFormat::Bmp => image::ImageFormat::Bmp,
        ImgFormat::Ico => image::ImageFormat::Ico,
        ImgFormat::Avif => image::ImageFormat::Avif,
        ImgFormat::Qoi => image::ImageFormat::Qoi,
    }
}

/// What sniffing recognizes in a byte string: the container format, when
/// `image::guess_format` succeeds and names a format of this library's set.
/// Sniffing reads the bytes alone, so its outcome is a function of them.
pub uninterp spec fn sniffed_format(bytes: Seq<u8>) -> Option<ImgFormat>;

/// Relies on `image::guess_format`, which sniffs the container format from
/// the leading bytes without decoding, as a function of the bytes alone.
/// `Ok(Some(f))` is a recognized format of this library's set, `Ok(None)` a
/// sniffed format outside it, `Err` a failed sniff; [`sniffed_format`] names
/// the recognized outcome.
#[verifier::external_body]
pub(crate) fn sniff_format(bytes: &[u8]) -> (r: Result<Option<ImgFormat>, String>)
    ensures
        match r {
            Ok(Some(f)) => sniffed_format(bytes@) == Some(f),
            _ => sniffed_format(bytes@) is None,
        },
{
    let f = image::guess_format(bytes).map_err(|e| format!("{e}"))?;
    Ok(match f {
        image::ImageFormat::Png => Some(ImgFormat::Png),
        image::ImageFormat::Jpeg => Some(ImgFormat::Jpeg),
        image::ImageFormat::Gif => Some(ImgFormat::Gif),
        image::ImageFormat::WebP => Some(ImgFormat::WebP),
        image::ImageFormat::Tiff => Some(ImgFormat::Tiff),
        image::ImageFormat::Bmp => Some(ImgFormat::Bmp),
        image::ImageFormat::Ico => Some(ImgFormat::Ico),
        image::ImageFormat::Avif => Some(ImgFormat::Avif),
        image::ImageFormat::Qoi => Some(ImgFormat::Qoi),
        _ => None,
    })
}

/// Whether decoding succeeds: `image::load_from_memory_with_format` accepts
/// or rejects a byte string as a function of the bytes and the format alone.
pub uninterp spec fn decode_ok(bytes: Seq<u8>, f: ImgFormat) -> bool;

/// Relies on `image::load_from_memory_with_format`, which decodes the bytes
/// as the given container format, succeeding or failing on the bytes and the
/// format alone; `Err` carries the decoder's message.
#[verifier::external_body]
pub(crate) fn decode_image(bytes: &[u8], f: ImgFormat) -> (r: Result<SizedImage, String>)
    ensures
        r is Ok <==> decode_ok(bytes@, f),
{
    match image::load_from_memory_with_format(bytes, to_outside_format(f)) {
        Ok(img) => Ok(SizedImage::new(img)),
        Err(e) => Err(format!("{e}")),
    }
}

/// The dimensions resizing produces for a source size and a requested
/// bound: `resize_dimensions` computes them from the four integers alone,
/// with fixed float arithmetic.
pub uninterp spec fn resize_dims_of(w: u32, h: u32, tw: u32, th: u32) -> (u32, u32);

/// Relies on `image::DynamicImage::resize`: for a target equal to the
/// image's own dimensions it returns the image unchanged; otherwise it
/// scales to the largest size that fits within `w` by `h` (at least one
/// pixel per axis, per `resize_dimensions`) while preserving aspect ratio,
/// using a high-quality filter. [`resize_dims_of`] names the resulting
/// dimensions.
#[verifier::external_body]
pub(crate) fn resize_image(img: &SizedImage, w: u32, h: u32) -> (r: SizedImage)
    ensures
        (w == img.spec_width() && h == img.spec_height()) ==> r.spec_width() == w
            && r.spec_height() == h,
        !(w == img.spec_width() && h == img.spec_height()) ==> (r.spec_width(), r.spec_height())
            == resize_dims_of(img.spec_width(), img.spec_height(), w, h) && 1 <= r.spec_width()
            <= spec_dim_floor(w) && 1 <= r.spec_height() <= spec_dim_floor(h),
{
    let out = img.img.resize(w, h, image::imageops::FilterType::Lanczos3);
    SizedImage::new(out)
}

/// Relies on `image::DynamicImage::crop_imm`, which returns the sub-image of
/// the given rectangle clipped to the image's bounds, exactly as
/// [`spec_crop_clip`] states it.
#[verifier::external_body]
pub(crate) fn crop_image(img: &SizedImage, x: u32, y: u32, w: u32, h: u32) -> (r: SizedImage)
    ensures
        (r.spec_width(), r.spec_height()) == spec_crop_clip(
            img.spec_width(),
            img.spec_height(),
            x,
            y,
            w,
            h,
        ),
{
    let out = img.img.crop_imm(x, y, w, h);
    SizedImage::new(out)
}

/// Relies on `image::DynamicImage::write_to`, which encodes the image in the
/// given container format; `Err` carries the encoder's message.
#[verifier::external_body]
pub(crate) fn encode_image(img: &SizedImage, f: image::ImageFormat) -> (r: Result<
    Vec<u8>,
    String,
>) {
    let mut out = std::io::Cursor::new(Vec::new());
    match img.img.write_to(&mut out, f) {
        Ok(()) => Ok(out.into_inner()),
        Err(e) => Err(format!("{e}")),
    }
}

} // verus!
