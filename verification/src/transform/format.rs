//! The image container formats the transform engine can decode and encode,
//! and their relation to [`MimeType`].

use vstd::prelude::*;

use crate::mime::MimeType;
use crate::strutil::{spec_to_lower, str_eq_lower};

verus! {

/// An image container format the transform engine works with.
#[derive(Debug, Clone, Copy, PartialEq, Eq, Structural)]
pub enum ImgFormat {
    /// Portable Network Graphics
    Png,
    /// JPEG
    Jpeg,
    /// Graphics Interchange Format
    Gif,
    /// WebP
    WebP,
    /// Tagged Image File Format
    Tiff,
    /// Windows Bitmap
    Bmp,
    /// Windows icon
    Ico,
    /// AVIF
    Avif,
    /// Quite OK Image format
    Qoi,
}

impl ImgFormat {
    /// Which format a file-extension token names, if any. The token is read
    /// case-insensitively.
    pub open spec fn spec_from_extension(s: Seq<char>) -> Option<ImgFormat> {
        let t = spec_to_lower(s);
        if t == "png"@ || t == "apng"@ {
            Some(ImgFormat::Png)
        } else if t == "jpg"@ || t == "jpeg"@ || t == "jfif"@ {
            Some(ImgFormat::Jpeg)
        } else if t == "gif"@ {
            Some(ImgFormat::Gif)
        } else if t == "webp"@ {
            Some(ImgFormat::WebP)
        } else if t == "tif"@ || t == "tiff"@ {
            Some(ImgFormat::Tiff)
        } else if t == "bmp"@ {
            Some(ImgFormat::Bmp)
        } else if t == "ico"@ {
            Some(ImgFormat::Ico)
        } else if t == "avif"@ {
            Some(ImgFormat::Avif)
        } else if t == "qoi"@ {
            Some(ImgFormat::Qoi)
        } else {
            None
        }
    }

    /// Parse a file-extension token (any case, without a dot).
    pub fn from_extension(ext: &str) -> (r: Option<ImgFormat>)
        ensures
            r == Self::spec_from_extension(ext@),
    {
        if str_eq_lower(ext, "png") || str_eq_lower(ext, "apng") {
            Some(ImgFormat::Png)
        } else if str_eq_lower(ext, "jpg") || str_eq_lower(ext, "jpeg") || str_eq_lower(ext, "jfif") {
            Some(ImgFormat::Jpeg)
        } else if str_eq_lower(ext, "gif") {
            Some(ImgFormat::Gif)
        } else if str_eq_lower(ext, "webp") {
            Some(ImgFormat::WebP)
        } else if str_eq_lower(ext, "tif") || str_eq_lower(ext, "tiff") {
            Some(ImgFormat::Tiff)
        } else if str_eq_lower(ext, "bmp") {
            Some(ImgFormat::Bmp)
        } else if str_eq_lower(ext, "ico") {
            Some(ImgFormat::Ico)
        } else if str_eq_lower(ext, "avif") {
            Some(ImgFormat::Avif)
        } else if str_eq_lower(ext, "qoi") {
            Some(ImgFormat::Qoi)
        } else {
            None
        }
    }

    /// The MIME type this library reports for images in this format.
    pub open spec fn spec_to_mime(&self) -> MimeType {
        match *self {
            ImgFormat::Png => MimeType::Png,
            ImgFormat::Jpeg => MimeType::Jpg,
            ImgFormat::Gif => MimeType::Gif,
            ImgFormat::WebP => MimeType::Webp,
            ImgFormat::Tiff => MimeType::Tiff,
            ImgFormat::Bmp => MimeType::Bmp,
            ImgFormat::Ico => MimeType::Ico,
            ImgFormat::Avif => MimeType::Avif,
            ImgFormat::Qoi => MimeType::Qoi,
        }
    }

    /// The MIME type for images in this format.
    pub fn to_mime(&self) -> (r: MimeType)
        ensures
            r == self.spec_to_mime(),
    {
        match *self {
            ImgFormat::Png => MimeType::Png,
            ImgFormat::Jpeg => MimeType::Jpg,
            ImgFormat::Gif => MimeType::Gif,
            ImgFormat::WebP => MimeType::Webp,
            ImgFormat::Tiff => MimeType::Tiff,
            ImgFormat::Bmp => MimeType::Bmp,
            ImgFormat::Ico => MimeType::Ico,
            ImgFormat::Avif => MimeType::Avif,
            ImgFormat::Qoi => MimeType::Qoi,
        }
    }

    /// The format a MIME type's content is stored in, if the engine can
    /// transform it.
    pub open spec fn spec_from_mime(m: &MimeType) -> Option<ImgFormat> {
        match *m {
            MimeType::Png => Some(ImgFormat::Png),
            MimeType::Jpg => Some(ImgFormat::Jpeg),
            MimeType::Gif => Some(ImgFormat::Gif),
            MimeType::Webp => Some(ImgFormat::WebP),
            MimeType::Tiff => Some(ImgFormat::Tiff),
            MimeType::Bmp => Some(ImgFormat::Bmp),
            MimeType::Ico => Some(ImgFormat::Ico),
            MimeType::Avif => Some(ImgFormat::Avif),
            MimeType::Qoi => Some(ImgFormat::Qoi),
            _ => None,
        }
    }

    /// The format a MIME type's content is stored in, if the engine can
    /// transform it.
    pub fn from_mime(m: &MimeType) -> (r: Option<ImgFormat>)
        ensures
            r == Self::spec_from_mime(m),
    {
        match *m {
            MimeType::Png => Some(ImgFormat::Png),
            MimeType::Jpg => Some(ImgFormat::Jpeg),
            MimeType::Gif => Some(ImgFormat::Gif),
            MimeType::Webp => Some(ImgFormat::WebP),
            MimeType::Tiff => Some(ImgFormat::Tiff),
            MimeType::Bmp => Some(ImgFormat::Bmp),
            MimeType::Ico => Some(ImgFormat::Ico),
            MimeType::Avif => Some(ImgFormat::Avif),
            MimeType::Qoi => Some(ImgFormat::Qoi),
            _ => None,
        }
    }

    /// The canonical file-extension token for this format.
    pub open spec fn spec_extension(&self) -> Seq<char> {
        match *self {
            ImgFormat::Png => "png"@,
            ImgFormat::Jpeg => "jpg"@,
            ImgFormat::Gif => "gif"@,
            ImgFormat::WebP => "webp"@,
            ImgFormat::Tiff => "tif"@,
            ImgFormat::Bmp => "bmp"@,
            ImgFormat::Ico => "ico"@,
            ImgFormat::Avif => "avif"@,
            ImgFormat::Qoi => "qoi"@,
        }
    }

    /// The canonical file-extension token for this format.
    pub fn extension(&self) -> (r: &'static str)
        ensures
            r@ == self.spec_extension(),
    {
        match *self {
            ImgFormat::Png => "png",
            ImgFormat::Jpeg => "jpg",
            ImgFormat::Gif => "gif",
            ImgFormat::WebP => "webp",
            ImgFormat::Tiff => "tif",
            ImgFormat::Bmp => "bmp",
            ImgFormat::Ico => "ico",
            ImgFormat::Avif => "avif",
            ImgFormat::Qoi => "qoi",
        }
    }
}

/// The format and MIME tables invert each other: a transformable MIME type
/// round-trips through its format, and every format's MIME type maps back to
/// that format.
pub proof fn lemma_format_mime_roundtrip(f: ImgFormat, m: MimeType)
    ensures
        ImgFormat::spec_from_mime(&f.spec_to_mime()) == Some(f),
        ImgFormat::spec_from_mime(&m) matches Some(g) ==> g.spec_to_mime() == m,
{
}

} // verus!
