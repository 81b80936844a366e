//! Strongly-typed MIME types via [`MimeType`].

use vstd::prelude::*;

use crate::strutil::{spec_trim, str_eq, trimmed_range};

verus! {

/// A media type, conveniently parsed.
///
/// Parsing an unrecognized string yields [`MimeType::Other`], which keeps
/// the input verbatim; every other variant has one canonical string, given
/// by [`MimeType::to_string`].
#[derive(Debug)]
pub enum MimeType {
    /// A mimetype we didn't recognize, kept verbatim
    Other(String),
    /// application/octet-stream
    Blob,
    /// audio/aac
    Aac,
    /// audio/flac
    Flac,
    /// audio/midi
    Midi,
    /// audio/mpeg
    Mp3,
    /// audio/ogg
    Oga,
    /// audio/opus
    Opus,
    /// audio/wav
    Wav,
    /// audio/webm
    Weba,
    /// video/x-msvideo
    Avi,
    /// video/mp4
    Mp4,
    /// video/mpeg
    Mpeg,
    /// video/ogg
    Ogv,
    /// video/mp2t
    Ts,
    /// video/webm
    WebmVideo,
    /// video/3gpp
    ThreeGp,
    /// video/3gpp2
    ThreeG2,
    /// image/apng
    Apng,
    /// image/avif
    Avif,
    /// image/bmp
    Bmp,
    /// image/gif
    Gif,
    /// image/vnd.microsoft.icon
    Ico,
    /// image/jpeg
    Jpg,
    /// image/png
    Png,
    /// image/svg+xml
    Svg,
    /// image/tiff
    Tiff,
    /// image/webp
    Webp,
    /// image/qoi
    Qoi,
    /// text/plain
    Text,
    /// text/css
    Css,
    /// text/csv
    Csv,
    /// text/html
    Html,
    /// text/javascript
    Javascript,
    /// application/json
    Json,
    /// application/ld+json
    JsonLd,
    /// application/xml
    Xml,
    /// application/pdf
    Pdf,
    /// application/rtf
    Rtf,
    /// application/x-freearc
    Arc,
    /// application/x-bzip
    Bz,
    /// application/x-bzip2
    Bz2,
    /// application/gzip
    Gz,
    /// application/java-archive
    Jar,
    /// application/ogg
    Ogg,
    /// application/vnd.rar
    Rar,
    /// application/x-7z-compressed
    SevenZ,
    /// application/x-tar
    Tar,
    /// application/zip
    Zip,
    /// application/vnd.ms-fontobject
    Eot,
    /// font/otf
    Otf,
    /// font/ttf
    Ttf,
    /// font/woff
    Woff,
    /// font/woff2
    Woff2,
    /// application/x-abiword
    Abiword,
    /// application/vnd.amazon.ebook
    Azw,
    /// application/x-cdf
    Cda,
    /// application/x-csh
    Csh,
    /// application/msword
    Doc,
    /// application/vnd.openxmlformats-officedocument.wordprocessingml.document
    Docx,
    /// application/epub+zip
    Epub,
    /// text/calendar
    Ics,
    /// application/vnd.apple.installer+xml
    Mpkg,
    /// application/vnd.oasis.opendocument.presentation
    Odp,
    /// application/vnd.oasis.opendocument.spreadsheet
    Ods,
    /// application/vnd.oasis.opendocument.text
    Odt,
    /// application/x-httpd-php
    Php,
    /// application/vnd.ms-powerpoint
    Ppt,
    /// application/vnd.openxmlformats-officedocument.presentationml.presentation
    Pptx,
    /// application/x-sh
    Sh,
    /// application/vnd.visio
    Vsd,
    /// application/xhtml+xml
    Xhtml,
    /// application/vnd.ms-excel
    Xls,
    /// application/vnd.openxmlformats-officedocument.spreadsheetml.sheet
    Xlsx,
    /// application/vnd.mozilla.xul+xml
    Xul,
}

impl Clone for MimeType {
    /// A clone of a mimetype is equal to it.
    fn clone(&self) -> (r: Self)
        ensures
            r == self,
    {
        match self {
            MimeType::Other(s) => MimeType::Other(s.clone()),
            MimeType::Blob => MimeType::Blob,
            MimeType::Aac => MimeType::Aac,
            MimeType::Flac => MimeType::Flac,
            MimeType::Midi => MimeType::Midi,
            MimeType::Mp3 => MimeType::Mp3,
            MimeType::Oga => MimeType::Oga,
            MimeType::Opus => MimeType::Opus,
            MimeType::Wav => MimeType::Wav,
            MimeType::Weba => MimeType::Weba,
            MimeType::Avi => MimeType::Avi,
            MimeType::Mp4 => MimeType::Mp4,
            MimeType::Mpeg => MimeType::Mpeg,
            MimeType::Ogv => MimeType::Ogv,
            MimeType::Ts => MimeType::Ts,
            MimeType::WebmVideo => MimeType::WebmVideo,
            MimeType::ThreeGp => MimeType::ThreeGp,
            MimeType::ThreeG2 => MimeType::ThreeG2,
            MimeType::Apng => MimeType::Apng,
            MimeType::Avif => MimeType::Avif,
            MimeType::Bmp => MimeType::Bmp,
            MimeType::Gif => MimeType::Gif,
            MimeType::Ico => MimeType::Ico,
            MimeType::Jpg => MimeType::Jpg,
            MimeType::Png => MimeType::Png,
            MimeType::Svg => MimeType::Svg,
            MimeType::Tiff => MimeType::Tiff,
            MimeType::Webp => MimeType::Webp,
            MimeType::Qoi => MimeType::Qoi,
            MimeType::Text => MimeType::Text,
            MimeType::Css => MimeType::Css,
            MimeType::Csv => MimeType::Csv,
            MimeType::Html => MimeType::Html,
            MimeType::Javascript => MimeType::Javascript,
            MimeType::Json => MimeType::Json,
            MimeType::JsonLd => MimeType::JsonLd,
            MimeType::Xml => MimeType::Xml,
            MimeType::Pdf => MimeType::Pdf,
            MimeType::Rtf => MimeType::Rtf,
            MimeType::Arc => MimeType::Arc,
            MimeType::Bz => MimeType::Bz,
            MimeType::Bz2 => MimeType::Bz2,
            MimeType::Gz => MimeType::Gz,
            MimeType::Jar => MimeType::Jar,
            MimeType::Ogg => MimeType::Ogg,
            MimeType::Rar => MimeType::Rar,
            MimeType::SevenZ => MimeType::SevenZ,
            MimeType::Tar => MimeType::Tar,
            MimeType::Zip => MimeType::Zip,
            MimeType::Eot => MimeType::Eot,
            MimeType::Otf => MimeType::Otf,
            MimeType::Ttf => MimeType::Ttf,
            MimeType::Woff => MimeType::Woff,
            MimeType::Woff2 => MimeType::Woff2,
            MimeType::Abiword => MimeType::Abiword,
            MimeType::Azw => MimeType::Azw,
            MimeType::Cda => MimeType::Cda,
            MimeType::Csh => MimeType::Csh,
            MimeType::Doc => MimeType::Doc,
            MimeType::Docx => MimeType::Docx,
            MimeType::Epub => MimeType::Epub,
            MimeType::Ics => MimeType::Ics,
            MimeType::Mpkg => MimeType::Mpkg,
            MimeType::Odp => MimeType::Odp,
            MimeType::Ods => MimeType::Ods,
            MimeType::Odt => MimeType::Odt,
            MimeType::Php => MimeType::Php,
            MimeType::Ppt => MimeType::Ppt,
            MimeType::Pptx => MimeType::Pptx,
            MimeType::Sh => MimeType::Sh,
            MimeType::Vsd => MimeType::Vsd,
            MimeType::Xhtml => MimeType::Xhtml,
            MimeType::Xls => MimeType::Xls,
            MimeType::Xlsx => MimeType::Xlsx,
            MimeType::Xul => MimeType::Xul,
        }
    }
}

impl MimeType {
    /// The canonical string of this mimetype; for `Other` the stored string.
    pub open spec fn spec_canonical(&self) -> Seq<char> {
        match self {
            MimeType::Other(s) => s@,
            MimeType::Blob => "application/octet-stream"@,
            MimeType::Aac => "audio/aac"@,
            MimeType::Flac => "audio/flac"@,
            MimeType::Midi => "audio/midi"@,
            MimeType::Mp3 => "audio/mpeg"@,
            MimeType::Oga => "audio/ogg"@,
            MimeType::Opus => "audio/opus"@,
            MimeType::Wav => "audio/wav"@,
            MimeType::Weba => "audio/webm"@,
            MimeType::Avi => "video/x-msvideo"@,
            MimeType::Mp4 => "video/mp4"@,
            MimeType::Mpeg => "video/mpeg"@,
            MimeType::Ogv => "video/ogg"@,
            MimeType::Ts => "video/mp2t"@,
            MimeType::WebmVideo => "video/webm"@,
            MimeType::ThreeGp => "video/3gpp"@,
            MimeType::ThreeG2 => "video/3gpp2"@,
            MimeType::Apng => "image/apng"@,
            MimeType::Avif => "image/avif"@,
            MimeType::Bmp => "image/bmp"@,
            MimeType::Gif => "image/gif"@,
            MimeType::Ico => "image/vnd.microsoft.icon"@,
            MimeType::Jpg => "image/jpeg"@,
            MimeType::Png => "image/png"@,
            MimeType::Svg => "image/svg+xml"@,
            MimeType::Tiff => "image/tiff"@,
            MimeType::Webp => "image/webp"@,
            MimeType::Qoi => "image/qoi"@,
            MimeType::Text => "text/plain"@,
            MimeType::Css => "text/css"@,
            MimeType::Csv => "text/csv"@,
            MimeType::Html => "text/html"@,
            MimeType::Javascript => "text/javascript"@,
            MimeType::Json => "application/json"@,
            MimeType::JsonLd => "application/ld+json"@,
            MimeType::Xml => "application/xml"@,
            MimeType::Pdf => "application/pdf"@,
            MimeType::Rtf => "application/rtf"@,
            MimeType::Arc => "application/x-freearc"@,
            MimeType::Bz => "application/x-bzip"@,
            MimeType::Bz2 => "application/x-bzip2"@,
            MimeType::Gz => "application/gzip"@,
            MimeType::Jar => "application/java-archive"@,
            MimeType::Ogg => "application/ogg"@,
            MimeType::Rar => "application/vnd.rar"@,
            MimeType::SevenZ => "application/x-7z-compressed"@,
            MimeType::Tar => "application/x-tar"@,
            MimeType::Zip => "application/zip"@,
            MimeType::Eot => "application/vnd.ms-fontobject"@,
            MimeType::Otf => "font/otf"@,
            MimeType::Ttf => "font/ttf"@,
            MimeType::Woff => "font/woff"@,
            MimeType::Woff2 => "font/woff2"@,
            MimeType::Abiword => "application/x-abiword"@,
            MimeType::Azw => "application/vnd.amazon.ebook"@,
            MimeType::Cda => "application/x-cdf"@,
            MimeType::Csh => "application/x-csh"@,
            MimeType::Doc => "application/msword"@,
            MimeType::Docx => "application/vnd.openxmlformats-officedocument.wordprocessingml.document"@,
            MimeType::Epub => "application/epub+zip"@,
            MimeType::Ics => "text/calendar"@,
            MimeType::Mpkg => "application/vnd.apple.installer+xml"@,
            MimeType::Odp => "application/vnd.oasis.opendocument.presentation"@,
            MimeType::Ods => "application/vnd.oasis.opendocument.spreadsheet"@,
            MimeType::Odt => "application/vnd.oasis.opendocument.text"@,
            MimeType::Php => "application/x-httpd-php"@,
            MimeType::Ppt => "application/vnd.ms-powerpoint"@,
            MimeType::Pptx => "application/vnd.openxmlformats-officedocument.presentationml.presentation"@,
            MimeType::Sh => "application/x-sh"@,
            MimeType::Vsd => "application/vnd.visio"@,
            MimeType::Xhtml => "application/xhtml+xml"@,
            MimeType::Xls => "application/vnd.ms-excel"@,
            MimeType::Xlsx => "application/vnd.openxmlformats-officedocument.spreadsheetml.sheet"@,
            MimeType::Xul => "application/vnd.mozilla.xul+xml"@,
        }
    }

    /// Which mimetype a string parses to, if it is recognized.
    pub open spec fn spec_parse(s: Seq<char>) -> Option<MimeType> {
        if s == "application/octet-stream"@ {
            Some(MimeType::Blob)
        } else if s == "audio/aac"@ {
            Some(MimeType::Aac)
        } else if s == "audio/flac"@ {
            Some(MimeType::Flac)
        } else if s == "audio/midi"@ || s == "audio/x-midi"@ {
            Some(MimeType::Midi)
        } else if s == "audio/mpeg"@ {
            Some(MimeType::Mp3)
        } else if s == "audio/ogg"@ {
            Some(MimeType::Oga)
        } else if s == "audio/opus"@ {
            Some(MimeType::Opus)
        } else if s == "audio/wav"@ {
            Some(MimeType::Wav)
        } else if s == "audio/webm"@ {
            Some(MimeType::Weba)
        } else if s == "video/x-msvideo"@ {
            Some(MimeType::Avi)
        } else if s == "video/mp4"@ {
            Some(MimeType::Mp4)
        } else if s == "video/mpeg"@ {
            Some(MimeType::Mpeg)
        } else if s == "video/ogg"@ {
            Some(MimeType::Ogv)
        } else if s == "video/mp2t"@ {
            Some(MimeType::Ts)
        } else if s == "video/webm"@ {
            Some(MimeType::WebmVideo)
        } else if s == "video/3gpp"@ {
            Some(MimeType::ThreeGp)
        } else if s == "video/3gpp2"@ {
            Some(MimeType::ThreeG2)
        } else if s == "image/apng"@ {
            Some(MimeType::Apng)
        } else if s == "image/avif"@ {
            Some(MimeType::Avif)
        } else if s == "image/bmp"@ {
            Some(MimeType::Bmp)
        } else if s == "image/gif"@ {
            Some(MimeType::Gif)
        } else if s == "image/vnd.microsoft.icon"@ {
            Some(MimeType::Ico)
        } else if s == "image/jpeg"@ || s == "image/jpg"@ {
            Some(MimeType::Jpg)
        } else if s == "image/png"@ {
            Some(MimeType::Png)
        } else if s == "image/svg+xml"@ {
            Some(MimeType::Svg)
        } else if s == "image/tiff"@ {
            Some(MimeType::Tiff)
        } else if s == "image/webp"@ {
            Some(MimeType::Webp)
        } else if s == "image/qoi"@ {
            Some(MimeType::Qoi)
        } else if s == "text/plain"@ {
            Some(MimeType::Text)
        } else if s == "text/css"@ {
            Some(MimeType::Css)
        } else if s == "text/csv"@ {
            Some(MimeType::Csv)
        } else if s == "text/html"@ {
            Some(MimeType::Html)
        } else if s == "text/javascript"@ {
            Some(MimeType::Javascript)
        } else if s == "application/json"@ {
            Some(MimeType::Json)
        } else if s == "application/ld+json"@ {
            Some(MimeType::JsonLd)
        } else if s == "application/xml"@ || s == "text/xml"@ {
            Some(MimeType::Xml)
        } else if s == "application/pdf"@ {
            Some(MimeType::Pdf)
        } else if s == "application/rtf"@ {
            Some(MimeType::Rtf)
        } else if s == "application/x-freearc"@ {
            Some(MimeType::Arc)
        } else if s == "application/x-bzip"@ {
            Some(MimeType::Bz)
        } else if s == "application/x-bzip2"@ {
            Some(MimeType::Bz2)
        } else if s == "application/gzip"@ || s == "application/x-gzip"@ {
            Some(MimeType::Gz)
        } else if s == "application/java-archive"@ {
            Some(MimeType::Jar)
        } else if s == "application/ogg"@ {
            Some(MimeType::Ogg)
        } else if s == "application/vnd.rar"@ {
            Some(MimeType::Rar)
        } else if s == "application/x-7z-compressed"@ {
            Some(MimeType::SevenZ)
        } else if s == "application/x-tar"@ {
            Some(MimeType::Tar)
        } else if s == "application/zip"@ || s == "application/x-zip-compressed"@ {
            Some(MimeType::Zip)
        } else if s == "application/vnd.ms-fontobject"@ {
            Some(MimeType::Eot)
        } else if s == "font/otf"@ {
            Some(MimeType::Otf)
        } else if s == "font/ttf"@ {
            Some(MimeType::Ttf)
        } else if s == "font/woff"@ {
            Some(MimeType::Woff)
        } else if s == "font/woff2"@ {
            Some(MimeType::Woff2)
        } else if s == "application/x-abiword"@ {
            Some(MimeType::Abiword)
        } else if s == "application/vnd.amazon.ebook"@ {
            Some(MimeType::Azw)
        } else if s == "application/x-cdf"@ {
            Some(MimeType::Cda)
        } else if s == "application/x-csh"@ {
            Some(MimeType::Csh)
        } else if s == "application/msword"@ {
            Some(MimeType::Doc)
        } else if s == "application/vnd.openxmlformats-officedocument.wordprocessingml.document"@ {
            Some(MimeType::Docx)
        } else if s == "application/epub+zip"@ {
            Some(MimeType::Epub)
        } else if s == "text/calendar"@ {
            Some(MimeType::Ics)
        } else if s == "application/vnd.apple.installer+xml"@ {
            Some(MimeType::Mpkg)
        } else if s == "application/vnd.oasis.opendocument.presentation"@ {
            Some(MimeType::Odp)
        } else if s == "application/vnd.oasis.opendocument.spreadsheet"@ {
            Some(MimeType::Ods)
        } else if s == "application/vnd.oasis.opendocument.text"@ {
            Some(MimeType::Odt)
        } else if s == "application/x-httpd-php"@ {
            Some(MimeType::Php)
        } else if s == "application/vnd.ms-powerpoint"@ {
            Some(MimeType::Ppt)
        } else if s == "application/vnd.openxmlformats-officedocument.presentationml.presentation"@ {
            Some(MimeType::Pptx)
        } else if s == "application/x-sh"@ {
            Some(MimeType::Sh)
        } else if s == "application/vnd.visio"@ {
            Some(MimeType::Vsd)
        } else if s == "application/xhtml+xml"@ {
            Some(MimeType::Xhtml)
        } else if s == "application/vnd.ms-excel"@ {
            Some(MimeType::Xls)
        } else if s == "application/vnd.openxmlformats-officedocument.spreadsheetml.sheet"@ {
            Some(MimeType::Xlsx)
        } else if s == "application/vnd.mozilla.xul+xml"@ {
            Some(MimeType::Xul)
        } else {
            None
        }
    }

    /// Parse a mimetype string. Recognized strings map to their variant;
    /// anything else is preserved verbatim as [`MimeType::Other`].
    pub fn from_str(s: &str) -> (r: MimeType)
        ensures
            Self::spec_parse(s@) matches Some(m) ==> r == m,
            Self::spec_parse(s@) is None ==> (r matches MimeType::Other(o) && o@ == s@),
    {
        if str_eq(s, "application/octet-stream") {
            return MimeType::Blob;
        }
        if str_eq(s, "audio/aac") {
            return MimeType::Aac;
        }
        if str_eq(s, "audio/flac") {
            return MimeType::Flac;
        }
        if str_eq(s, "audio/midi") || str_eq(s, "audio/x-midi") {
            return MimeType::Midi;
        }
        if str_eq(s, "audio/mpeg") {
            return MimeType::Mp3;
        }
        if str_eq(s, "audio/ogg") {
            return MimeType::Oga;
        }
        if str_eq(s, "audio/opus") {
            return MimeType::Opus;
        }
        if str_eq(s, "audio/wav") {
            return MimeType::Wav;
        }
        if str_eq(s, "audio/webm") {
            return MimeType::Weba;
        }
        if str_eq(s, "video/x-msvideo") {
            return MimeType::Avi;
        }
        if str_eq(s, "video/mp4") {
            return MimeType::Mp4;
        }
        if str_eq(s, "video/mpeg") {
            return MimeType::Mpeg;
        }
        if str_eq(s, "video/ogg") {
            return MimeType::Ogv;
        }
        if str_eq(s, "video/mp2t") {
            return MimeType::Ts;
        }
        if str_eq(s, "video/webm") {
            return MimeType::WebmVideo;
        }
        if str_eq(s, "video/3gpp") {
            return MimeType::ThreeGp;
        }
        if str_eq(s, "video/3gpp2") {
            return MimeType::ThreeG2;
        }
        if str_eq(s, "image/apng") {
            return MimeType::Apng;
        }
        if str_eq(s, "image/avif") {
            return MimeType::Avif;
        }
        if str_eq(s, "image/bmp") {
            return MimeType::Bmp;
        }
        if str_eq(s, "image/gif") {
            return MimeType::Gif;
        }
        if str_eq(s, "image/vnd.microsoft.icon") {
            return MimeType::Ico;
        }
        if str_eq(s, "image/jpeg") || str_eq(s, "image/jpg") {
            return MimeType::Jpg;
        }
        if str_eq(s, "image/png") {
            return MimeType::Png;
        }
        if str_eq(s, "image/svg+xml") {
            return MimeType::Svg;
        }
        if str_eq(s, "image/tiff") {
            return MimeType::Tiff;
        }
        if str_eq(s, "image/webp") {
            return MimeType::Webp;
        }
        if str_eq(s, "image/qoi") {
            return MimeType::Qoi;
        }
        if str_eq(s, "text/plain") {
            return MimeType::Text;
        }
        if str_eq(s, "text/css") {
            return MimeType::Css;
        }
        if str_eq(s, "text/csv") {
            return MimeType::Csv;
        }
        if str_eq(s, "text/html") {
            return MimeType::Html;
        }
        if str_eq(s, "text/javascript") {
            return MimeType::Javascript;
        }
        if str_eq(s, "application/json") {
            return MimeType::Json;
        }
        if str_eq(s, "application/ld+json") {
            return MimeType::JsonLd;
        }
        if str_eq(s, "application/xml") || str_eq(s, "text/xml") {
            return MimeType::Xml;
        }
        if str_eq(s, "application/pdf") {
            return MimeType::Pdf;
        }
        if str_eq(s, "application/rtf") {
            return MimeType::Rtf;
        }
        if str_eq(s, "application/x-freearc") {
            return MimeType::Arc;
        }
        if str_eq(s, "application/x-bzip") {
            return MimeType::Bz;
        }
        if str_eq(s, "application/x-bzip2") {
            return MimeType::Bz2;
        }
        if str_eq(s, "application/gzip") || str_eq(s, "application/x-gzip") {
            return MimeType::Gz;
        }
        if str_eq(s, "application/java-archive") {
            return MimeType::Jar;
        }
        if str_eq(s, "application/ogg") {
            return MimeType::Ogg;
        }
        if str_eq(s, "application/vnd.rar") {
            return MimeType::Rar;
        }
        if str_eq(s, "application/x-7z-compressed") {
            return MimeType::SevenZ;
        }
        if str_eq(s, "application/x-tar") {
            return MimeType::Tar;
        }
        if str_eq(s, "application/zip") || str_eq(s, "application/x-zip-compressed") {
            return MimeType::Zip;
        }
        if str_eq(s, "application/vnd.ms-fontobject") {
            return MimeType::Eot;
        }
        if str_eq(s, "font/otf") {
            return MimeType::Otf;
        }
        if str_eq(s, "font/ttf") {
            return MimeType::Ttf;
        }
        if str_eq(s, "font/woff") {
            return MimeType::Woff;
        }
        if str_eq(s, "font/woff2") {
            return MimeType::Woff2;
        }
        if str_eq(s, "application/x-abiword") {
            return MimeType::Abiword;
        }
        if str_eq(s, "application/vnd.amazon.ebook") {
            return MimeType::Azw;
        }
        if str_eq(s, "application/x-cdf") {
            return MimeType::Cda;
        }
        if str_eq(s, "application/x-csh") {
            return MimeType::Csh;
        }
        if str_eq(s, "application/msword") {
            return MimeType::Doc;
        }
        if str_eq(s, "application/vnd.openxmlformats-officedocument.wordprocessingml.document") {
            return MimeType::Docx;
        }
        if str_eq(s, "application/epub+zip") {
            return MimeType::Epub;
        }
        if str_eq(s, "text/calendar") {
            return MimeType::Ics;
        }
        if str_eq(s, "application/vnd.apple.installer+xml") {
            return MimeType::Mpkg;
        }
        if str_eq(s, "application/vnd.oasis.opendocument.presentation") {
            return MimeType::Odp;
        }
        if str_eq(s, "application/vnd.oasis.opendocument.spreadsheet") {
            return MimeType::Ods;
        }
        if str_eq(s, "application/vnd.oasis.opendocument.text") {
            return MimeType::Odt;
        }
        if str_eq(s, "application/x-httpd-php") {
            return MimeType::Php;
        }
        if str_eq(s, "application/vnd.ms-powerpoint") {
            return MimeType::Ppt;
        }
        if str_eq(s, "application/vnd.openxmlformats-officedocument.presentationml.presentation") {
            return MimeType::Pptx;
        }
        if str_eq(s, "application/x-sh") {
            return MimeType::Sh;
        }
        if str_eq(s, "application/vnd.visio") {
            return MimeType::Vsd;
        }
        if str_eq(s, "application/xhtml+xml") {
            return MimeType::Xhtml;
        }
        if str_eq(s, "application/vnd.ms-excel") {
            return MimeType::Xls;
        }
        if str_eq(s, "application/vnd.openxmlformats-officedocument.spreadsheetml.sheet") {
            return MimeType::Xlsx;
        }
        if str_eq(s, "application/vnd.mozilla.xul+xml") {
            return MimeType::Xul;
        }
        MimeType::Other(s.to_owned())
    }

    /// The string representation of this mimetype: its canonical string,
    /// or the stored string for [`MimeType::Other`].
    pub fn to_string(&self) -> (r: String)
        ensures
            r@ == self.spec_canonical(),
    {
        match self {
            MimeType::Other(x) => x.clone(),
            MimeType::Blob => "application/octet-stream".to_owned(),
            MimeType::Aac => "audio/aac".to_owned(),
            MimeType::Flac => "audio/flac".to_owned(),
            MimeType::Midi => "audio/midi".to_owned(),
            MimeType::Mp3 => "audio/mpeg".to_owned(),
            MimeType::Oga => "audio/ogg".to_owned(),
            MimeType::Opus => "audio/opus".to_owned(),
            MimeType::Wav => "audio/wav".to_owned(),
            MimeType::Weba => "audio/webm".to_owned(),
            MimeType::Avi => "video/x-msvideo".to_owned(),
            MimeType::Mp4 => "video/mp4".to_owned(),
            MimeType::Mpeg => "video/mpeg".to_owned(),
            MimeType::Ogv => "video/ogg".to_owned(),
            MimeType::Ts => "video/mp2t".to_owned(),
            MimeType::WebmVideo => "video/webm".to_owned(),
            MimeType::ThreeGp => "video/3gpp".to_owned(),
            MimeType::ThreeG2 => "video/3gpp2".to_owned(),
            MimeType::Apng => "image/apng".to_owned(),
            MimeType::Avif => "image/avif".to_owned(),
            MimeType::Bmp => "image/bmp".to_owned(),
            MimeType::Gif => "image/gif".to_owned(),
            MimeType::Ico => "image/vnd.microsoft.icon".to_owned(),
            MimeType::Jpg => "image/jpeg".to_owned(),
            MimeType::Png => "image/png".to_owned(),
            MimeType::Svg => "image/svg+xml".to_owned(),
            MimeType::Tiff => "image/tiff".to_owned(),
            MimeType::Webp => "image/webp".to_owned(),
            MimeType::Qoi => "image/qoi".to_owned(),
            MimeType::Text => "text/plain".to_owned(),
            MimeType::Css => "text/css".to_owned(),
            MimeType::Csv => "text/csv".to_owned(),
            MimeType::Html => "text/html".to_owned(),
            MimeType::Javascript => "text/javascript".to_owned(),
            MimeType::Json => "application/json".to_owned(),
            MimeType::JsonLd => "application/ld+json".to_owned(),
            MimeType::Xml => "application/xml".to_owned(),
            MimeType::Pdf => "application/pdf".to_owned(),
            MimeType::Rtf => "application/rtf".to_owned(),
            MimeType::Arc => "application/x-freearc".to_owned(),
            MimeType::Bz => "application/x-bzip".to_owned(),
            MimeType::Bz2 => "application/x-bzip2".to_owned(),
            MimeType::Gz => "application/gzip".to_owned(),
            MimeType::Jar => "application/java-archive".to_owned(),
            MimeType::Ogg => "application/ogg".to_owned(),
            MimeType::Rar => "application/vnd.rar".to_owned(),
            MimeType::SevenZ => "application/x-7z-compressed".to_owned(),
            MimeType::Tar => "application/x-tar".to_owned(),
            MimeType::Zip => "application/zip".to_owned(),
            MimeType::Eot => "application/vnd.ms-fontobject".to_owned(),
            MimeType::Otf => "font/otf".to_owned(),
            MimeType::Ttf => "font/ttf".to_owned(),
            MimeType::Woff => "font/woff".to_owned(),
            MimeType::Woff2 => "font/woff2".to_owned(),
            MimeType::Abiword => "application/x-abiword".to_owned(),
            MimeType::Azw => "application/vnd.amazon.ebook".to_owned(),
            MimeType::Cda => "application/x-cdf".to_owned(),
            MimeType::Csh => "application/x-csh".to_owned(),
            MimeType::Doc => "application/msword".to_owned(),
            MimeType::Docx => "application/vnd.openxmlformats-officedocument.wordprocessingml.document".to_owned(),
            MimeType::Epub => "application/epub+zip".to_owned(),
            MimeType::Ics => "text/calendar".to_owned(),
            MimeType::Mpkg => "application/vnd.apple.installer+xml".to_owned(),
            MimeType::Odp => "application/vnd.oasis.opendocument.presentation".to_owned(),
            MimeType::Ods => "application/vnd.oasis.opendocument.spreadsheet".to_owned(),
            MimeType::Odt => "application/vnd.oasis.opendocument.text".to_owned(),
            MimeType::Php => "application/x-httpd-php".to_owned(),
            MimeType::Ppt => "application/vnd.ms-powerpoint".to_owned(),
            MimeType::Pptx => "application/vnd.openxmlformats-officedocument.presentationml.presentation".to_owned(),
            MimeType::Sh => "application/x-sh".to_owned(),
            MimeType::Vsd => "application/vnd.visio".to_owned(),
            MimeType::Xhtml => "application/xhtml+xml".to_owned(),
            MimeType::Xls => "application/vnd.ms-excel".to_owned(),
            MimeType::Xlsx => "application/vnd.openxmlformats-officedocument.spreadsheetml.sheet".to_owned(),
            MimeType::Xul => "application/vnd.mozilla.xul+xml".to_owned(),
        }
    }

    /// Which mimetype a file extension (without the dot) maps to.
    pub open spec fn spec_from_extension(s: Seq<char>) -> Option<MimeType> {
        if s == "aac"@ {
            Some(MimeType::Aac)
        } else if s == "flac"@ {
            Some(MimeType::Flac)
        } else if s == "mid"@ || s == "midi"@ {
            Some(MimeType::Midi)
        } else if s == "mp3"@ {
            Some(MimeType::Mp3)
        } else if s == "oga"@ {
            Some(MimeType::Oga)
        } else if s == "opus"@ {
            Some(MimeType::Opus)
        } else if s == "wav"@ {
            Some(MimeType::Wav)
        } else if s == "weba"@ {
            Some(MimeType::Weba)
        } else if s == "avi"@ {
            Some(MimeType::Avi)
        } else if s == "mp4"@ {
            Some(MimeType::Mp4)
        } else if s == "mpeg"@ {
            Some(MimeType::Mpeg)
        } else if s == "ogv"@ {
            Some(MimeType::Ogv)
        } else if s == "ts"@ {
            Some(MimeType::Ts)
        } else if s == "webm"@ {
            Some(MimeType::WebmVideo)
        } else if s == "3gp"@ {
            Some(MimeType::ThreeGp)
        } else if s == "3g2"@ {
            Some(MimeType::ThreeG2)
        } else if s == "apng"@ {
            Some(MimeType::Apng)
        } else if s == "avif"@ {
            Some(MimeType::Avif)
        } else if s == "bmp"@ {
            Some(MimeType::Bmp)
        } else if s == "gif"@ {
            Some(MimeType::Gif)
        } else if s == "ico"@ {
            Some(MimeType::Ico)
        } else if s == "jpg"@ || s == "jpeg"@ {
            Some(MimeType::Jpg)
        } else if s == "png"@ {
            Some(MimeType::Png)
        } else if s == "svg"@ {
            Some(MimeType::Svg)
        } else if s == "tif"@ || s == "tiff"@ {
            Some(MimeType::Tiff)
        } else if s == "webp"@ {
            Some(MimeType::Webp)
        } else if s == "qoi"@ {
            Some(MimeType::Qoi)
        } else if s == "txt"@ {
            Some(MimeType::Text)
        } else if s == "css"@ {
            Some(MimeType::Css)
        } else if s == "csv"@ {
            Some(MimeType::Csv)
        } else if s == "htm"@ || s == "html"@ {
            Some(MimeType::Html)
        } else if s == "js"@ || s == "mjs"@ {
            Some(MimeType::Javascript)
        } else if s == "json"@ {
            Some(MimeType::Json)
        } else if s == "jsonld"@ {
            Some(MimeType::JsonLd)
        } else if s == "xml"@ {
            Some(MimeType::Xml)
        } else if s == "pdf"@ {
            Some(MimeType::Pdf)
        } else if s == "rtf"@ {
            Some(MimeType::Rtf)
        } else if s == "arc"@ {
            Some(MimeType::Arc)
        } else if s == "bz"@ {
            Some(MimeType::Bz)
        } else if s == "bz2"@ {
            Some(MimeType::Bz2)
        } else if s == "gz"@ {
            Some(MimeType::Gz)
        } else if s == "jar"@ {
            Some(MimeType::Jar)
        } else if s == "ogx"@ {
            Some(MimeType::Ogg)
        } else if s == "rar"@ {
            Some(MimeType::Rar)
        } else if s == "7z"@ {
            Some(MimeType::SevenZ)
        } else if s == "tar"@ {
            Some(MimeType::Tar)
        } else if s == "zip"@ {
            Some(MimeType::Zip)
        } else if s == "eot"@ {
            Some(MimeType::Eot)
        } else if s == "otf"@ {
            Some(MimeType::Otf)
        } else if s == "ttf"@ {
            Some(MimeType::Ttf)
        } else if s == "woff"@ {
            Some(MimeType::Woff)
        } else if s == "woff2"@ {
            Some(MimeType::Woff2)
        } else if s == "abw"@ {
            Some(MimeType::Abiword)
        } else if s == "azw"@ {
            Some(MimeType::Azw)
        } else if s == "cda"@ {
            Some(MimeType::Cda)
        } else if s == "csh"@ {
            Some(MimeType::Csh)
        } else if s == "doc"@ {
            Some(MimeType::Doc)
        } else if s == "docx"@ {
            Some(MimeType::Docx)
        } else if s == "epub"@ {
            Some(MimeType::Epub)
        } else if s == "ics"@ {
            Some(MimeType::Ics)
        } else if s == "mpkg"@ {
            Some(MimeType::Mpkg)
        } else if s == "odp"@ {
            Some(MimeType::Odp)
        } else if s == "ods"@ {
            Some(MimeType::Ods)
        } else if s == "odt"@ {
            Some(MimeType::Odt)
        } else if s == "php"@ {
            Some(MimeType::Php)
        } else if s == "ppt"@ {
            Some(MimeType::Ppt)
        } else if s == "pptx"@ {
            Some(MimeType::Pptx)
        } else if s == "sh"@ {
            Some(MimeType::Sh)
        } else if s == "vsd"@ {
            Some(MimeType::Vsd)
        } else if s == "xhtml"@ {
            Some(MimeType::Xhtml)
        } else if s == "xls"@ {
            Some(MimeType::Xls)
        } else if s == "xlsx"@ {
            Some(MimeType::Xlsx)
        } else if s == "xul"@ {
            Some(MimeType::Xul)
        } else {
            None
        }
    }

    /// Try to guess a file's mime type from its extension.
    /// `ext` should NOT start with a dot.
    pub fn from_extension(ext: &str) -> (r: Option<MimeType>)
        ensures
            r == Self::spec_from_extension(ext@),
    {
        if str_eq(ext, "aac") {
            return Some(MimeType::Aac);
        }
        if str_eq(ext, "flac") {
            return Some(MimeType::Flac);
        }
        if str_eq(ext, "mid") || str_eq(ext, "midi") {
            return Some(MimeType::Midi);
        }
        if str_eq(ext, "mp3") {
            return Some(MimeType::Mp3);
        }
        if str_eq(ext, "oga") {
            return Some(MimeType::Oga);
        }
        if str_eq(ext, "opus") {
            return Some(MimeType::Opus);
        }
        if str_eq(ext, "wav") {
            return Some(MimeType::Wav);
        }
        if str_eq(ext, "weba") {
            return Some(MimeType::Weba);
        }
        if str_eq(ext, "avi") {
            return Some(MimeType::Avi);
        }
        if str_eq(ext, "mp4") {
            return Some(MimeType::Mp4);
        }
        if str_eq(ext, "mpeg") {
            return Some(MimeType::Mpeg);
        }
        if str_eq(ext, "ogv") {
            return Some(MimeType::Ogv);
        }
        if str_eq(ext, "ts") {
            return Some(MimeType::Ts);
        }
        if str_eq(ext, "webm") {
            return Some(MimeType::WebmVideo);
        }
        if str_eq(ext, "3gp") {
            return Some(MimeType::ThreeGp);
        }
        if str_eq(ext, "3g2") {
            return Some(MimeType::ThreeG2);
        }
        if str_eq(ext, "apng") {
            return Some(MimeType::Apng);
        }
        if str_eq(ext, "avif") {
            return Some(MimeType::Avif);
        }
        if str_eq(ext, "bmp") {
            return Some(MimeType::Bmp);
        }
        if str_eq(ext, "gif") {
            return Some(MimeType::Gif);
        }
        if str_eq(ext, "ico") {
            return Some(MimeType::Ico);
        }
        if str_eq(ext, "jpg") || str_eq(ext, "jpeg") {
            return Some(MimeType::Jpg);
        }
        if str_eq(ext, "png") {
            return Some(MimeType::Png);
        }
        if str_eq(ext, "svg") {
            return Some(MimeType::Svg);
        }
        if str_eq(ext, "tif") || str_eq(ext, "tiff") {
            return Some(MimeType::Tiff);
        }
        if str_eq(ext, "webp") {
            return Some(MimeType::Webp);
        }
        if str_eq(ext, "qoi") {
            return Some(MimeType::Qoi);
        }
        if str_eq(ext, "txt") {
            return Some(MimeType::Text);
        }
        if str_eq(ext, "css") {
            return Some(MimeType::Css);
        }
        if str_eq(ext, "csv") {
            return Some(MimeType::Csv);
        }
        if str_eq(ext, "htm") || str_eq(ext, "html") {
            return Some(MimeType::Html);
        }
        if str_eq(ext, "js") || str_eq(ext, "mjs") {
            return Some(MimeType::Javascript);
        }
        if str_eq(ext, "json") {
            return Some(MimeType::Json);
        }
        if str_eq(ext, "jsonld") {
            return Some(MimeType::JsonLd);
        }
        if str_eq(ext, "xml") {
            return Some(MimeType::Xml);
        }
        if str_eq(ext, "pdf") {
            return Some(MimeType::Pdf);
        }
        if str_eq(ext, "rtf") {
            return Some(MimeType::Rtf);
        }
        if str_eq(ext, "arc") {
            return Some(MimeType::Arc);
        }
        if str_eq(ext, "bz") {
            return Some(MimeType::Bz);
        }
        if str_eq(ext, "bz2") {
            return Some(MimeType::Bz2);
        }
        if str_eq(ext, "gz") {
            return Some(MimeType::Gz);
        }
        if str_eq(ext, "jar") {
            return Some(MimeType::Jar);
        }
        if str_eq(ext, "ogx") {
            return Some(MimeType::Ogg);
        }
        if str_eq(ext, "rar") {
            return Some(MimeType::Rar);
        }
        if str_eq(ext, "7z") {
            return Some(MimeType::SevenZ);
        }
        if str_eq(ext, "tar") {
            return Some(MimeType::Tar);
        }
        if str_eq(ext, "zip") {
            return Some(MimeType::Zip);
        }
        if str_eq(ext, "eot") {
            return Some(MimeType::Eot);
        }
        if str_eq(ext, "otf") {
            return Some(MimeType::Otf);
        }
        if str_eq(ext, "ttf") {
            return Some(MimeType::Ttf);
        }
        if str_eq(ext, "woff") {
            return Some(MimeType::Woff);
        }
        if str_eq(ext, "woff2") {
            return Some(MimeType::Woff2);
        }
        if str_eq(ext, "abw") {
            return Some(MimeType::Abiword);
        }
        if str_eq(ext, "azw") {
            return Some(MimeType::Azw);
        }
        if str_eq(ext, "cda") {
            return Some(MimeType::Cda);
        }
        if str_eq(ext, "csh") {
            return Some(MimeType::Csh);
        }
        if str_eq(ext, "doc") {
            return Some(MimeType::Doc);
        }
        if str_eq(ext, "docx") {
            return Some(MimeType::Docx);
        }
        if str_eq(ext, "epub") {
            return Some(MimeType::Epub);
        }
        if str_eq(ext, "ics") {
            return Some(MimeType::Ics);
        }
        if str_eq(ext, "mpkg") {
            return Some(MimeType::Mpkg);
        }
        if str_eq(ext, "odp") {
            return Some(MimeType::Odp);
        }
        if str_eq(ext, "ods") {
            return Some(MimeType::Ods);
        }
        if str_eq(ext, "odt") {
            return Some(MimeType::Odt);
        }
        if str_eq(ext, "php") {
            return Some(MimeType::Php);
        }
        if str_eq(ext, "ppt") {
            return Some(MimeType::Ppt);
        }
        if str_eq(ext, "pptx") {
            return Some(MimeType::Pptx);
        }
        if str_eq(ext, "sh") {
            return Some(MimeType::Sh);
        }
        if str_eq(ext, "vsd") {
            return Some(MimeType::Vsd);
        }
        if str_eq(ext, "xhtml") {
            return Some(MimeType::Xhtml);
        }
        if str_eq(ext, "xls") {
            return Some(MimeType::Xls);
        }
        if str_eq(ext, "xlsx") {
            return Some(MimeType::Xlsx);
        }
        if str_eq(ext, "xul") {
            return Some(MimeType::Xul);
        }
        None
    }

    /// The extension used for files of this type, if there is one.
    pub open spec fn spec_extension(&self) -> Option<Seq<char>> {
        match self {
            MimeType::Other(_) => None,
            MimeType::Blob => None,
            MimeType::Aac => Some("aac"@),
            MimeType::Flac => Some("flac"@),
            MimeType::Midi => Some("midi"@),
            MimeType::Mp3 => Some("mp3"@),
            MimeType::Oga => Some("oga"@),
            MimeType::Opus => Some("opus"@),
            MimeType::Wav => Some("wav"@),
            MimeType::Weba => Some("weba"@),
            MimeType::Avi => Some("avi"@),
            MimeType::Mp4 => Some("mp4"@),
            MimeType::Mpeg => Some("mpeg"@),
            MimeType::Ogv => Some("ogv"@),
            MimeType::Ts => Some("ts"@),
            MimeType::WebmVideo => Some("webm"@),
            MimeType::ThreeGp => Some("3gp"@),
            MimeType::ThreeG2 => Some("3g2"@),
            MimeType::Apng => Some("apng"@),
            MimeType::Avif => Some("avif"@),
            MimeType::Bmp => Some("bmp"@),
            MimeType::Gif => Some("gif"@),
            MimeType::Ico => Some("ico"@),
            MimeType::Jpg => Some("jpg"@),
            MimeType::Png => Some("png"@),
            MimeType::Svg => Some("svg"@),
            MimeType::Tiff => Some("tiff"@),
            MimeType::Webp => Some("webp"@),
            MimeType::Qoi => Some("qoi"@),
            MimeType::Text => Some("txt"@),
            MimeType::Css => Some("css"@),
            MimeType::Csv => Some("csv"@),
            MimeType::Html => Some("html"@),
            MimeType::Javascript => Some("js"@),
            MimeType::Json => Some("json"@),
            MimeType::JsonLd => Some("jsonld"@),
            MimeType::Xml => Some("xml"@),
            MimeType::Pdf => Some("pdf"@),
            MimeType::Rtf => Some("rtf"@),
            MimeType::Arc => Some("arc"@),
            MimeType::Bz => Some("bz"@),
            MimeType::Bz2 => Some("bz2"@),
            MimeType::Gz => Some("gz"@),
            MimeType::Jar => Some("jar"@),
            MimeType::Ogg => Some("ogx"@),
            MimeType::Rar => Some("rar"@),
            MimeType::SevenZ => Some("7z"@),
            MimeType::Tar => Some("tar"@),
            MimeType::Zip => Some("zip"@),
            MimeType::Eot => Some("eot"@),
            MimeType::Otf => Some("otf"@),
            MimeType::Ttf => Some("ttf"@),
            MimeType::Woff => Some("woff"@),
            MimeType::Woff2 => Some("woff2"@),
            MimeType::Abiword => Some("abw"@),
            MimeType::Azw => Some("azw"@),
            MimeType::Cda => Some("cda"@),
            MimeType::Csh => Some("csh"@),
            MimeType::Doc => Some("doc"@),
            MimeType::Docx => Some("docx"@),
            MimeType::Epub => Some("epub"@),
            MimeType::Ics => Some("ics"@),
            MimeType::Mpkg => Some("mpkg"@),
            MimeType::Odp => Some("odp"@),
            MimeType::Ods => Some("ods"@),
            MimeType::Odt => Some("odt"@),
            MimeType::Php => Some("php"@),
            MimeType::Ppt => Some("ppt"@),
            MimeType::Pptx => Some("pptx"@),
            MimeType::Sh => Some("sh"@),
            MimeType::Vsd => Some("vsd"@),
            MimeType::Xhtml => Some("xhtml"@),
            MimeType::Xls => Some("xls"@),
            MimeType::Xlsx => Some("xlsx"@),
            MimeType::Xul => Some("xul"@),
        }
    }

    /// Get the extension we use for files with this type.
    /// Never includes a dot.
    pub fn extension(&self) -> (r: Option<&'static str>)
        ensures
            r matches Some(e) ==> self.spec_extension() == Some(e@),
            r is None ==> self.spec_extension() is None,
    {
        match self {
            MimeType::Other(_) => None,
            MimeType::Blob => None,
            MimeType::Aac => Some("aac"),
            MimeType::Flac => Some("flac"),
            MimeType::Midi => Some("midi"),
            MimeType::Mp3 => Some("mp3"),
            MimeType::Oga => Some("oga"),
            MimeType::Opus => Some("opus"),
            MimeType::Wav => Some("wav"),
            MimeType::Weba => Some("weba"),
            MimeType::Avi => Some("avi"),
            MimeType::Mp4 => Some("mp4"),
            MimeType::Mpeg => Some("mpeg"),
            MimeType::Ogv => Some("ogv"),
            MimeType::Ts => Some("ts"),
            MimeType::WebmVideo => Some("webm"),
            MimeType::ThreeGp => Some("3gp"),
            MimeType::ThreeG2 => Some("3g2"),
            MimeType::Apng => Some("apng"),
            MimeType::Avif => Some("avif"),
            MimeType::Bmp => Some("bmp"),
            MimeType::Gif => Some("gif"),
            MimeType::Ico => Some("ico"),
            MimeType::Jpg => Some("jpg"),
            MimeType::Png => Some("png"),
            MimeType::Svg => Some("svg"),
            MimeType::Tiff => Some("tiff"),
            MimeType::Webp => Some("webp"),
            MimeType::Qoi => Some("qoi"),
            MimeType::Text => Some("txt"),
            MimeType::Css => Some("css"),
            MimeType::Csv => Some("csv"),
            MimeType::Html => Some("html"),
            MimeType::Javascript => Some("js"),
            MimeType::Json => Some("json"),
            MimeType::JsonLd => Some("jsonld"),
            MimeType::Xml => Some("xml"),
            MimeType::Pdf => Some("pdf"),
            MimeType::Rtf => Some("rtf"),
            MimeType::Arc => Some("arc"),
            MimeType::Bz => Some("bz"),
            MimeType::Bz2 => Some("bz2"),
            MimeType::Gz => Some("gz"),
            MimeType::Jar => Some("jar"),
            MimeType::Ogg => Some("ogx"),
            MimeType::Rar => Some("rar"),
            MimeType::SevenZ => Some("7z"),
            MimeType::Tar => Some("tar"),
            MimeType::Zip => Some("zip"),
            MimeType::Eot => Some("eot"),
            MimeType::Otf => Some("otf"),
            MimeType::Ttf => Some("ttf"),
            MimeType::Woff => Some("woff"),
            MimeType::Woff2 => Some("woff2"),
            MimeType::Abiword => Some("abw"),
            MimeType::Azw => Some("azw"),
            MimeType::Cda => Some("cda"),
            MimeType::Csh => Some("csh"),
            MimeType::Doc => Some("doc"),
            MimeType::Docx => Some("docx"),
            MimeType::Epub => Some("epub"),
            MimeType::Ics => Some("ics"),
            MimeType::Mpkg => Some("mpkg"),
            MimeType::Odp => Some("odp"),
            MimeType::Ods => Some("ods"),
            MimeType::Odt => Some("odt"),
            MimeType::Php => Some("php"),
            MimeType::Ppt => Some("ppt"),
            MimeType::Pptx => Some("pptx"),
            MimeType::Sh => Some("sh"),
            MimeType::Vsd => Some("vsd"),
            MimeType::Xhtml => Some("xhtml"),
            MimeType::Xls => Some("xls"),
            MimeType::Xlsx => Some("xlsx"),
            MimeType::Xul => Some("xul"),
        }
    }

    /// Whether this mimetype is always plain text.
    pub open spec fn spec_is_text(&self) -> bool {
        match self {
            MimeType::Svg => true,
            MimeType::Text => true,
            MimeType::Css => true,
            MimeType::Csv => true,
            MimeType::Html => true,
            MimeType::Javascript => true,
            MimeType::Json => true,
            MimeType::JsonLd => true,
            MimeType::Xml => true,
            MimeType::Csh => true,
            MimeType::Ics => true,
            MimeType::Php => true,
            MimeType::Sh => true,
            MimeType::Xhtml => true,
            _ => false,
        }
    }

    /// Returns true if this MIME type is always plain text.
    pub fn is_text(&self) -> (r: bool)
        ensures
            r == self.spec_is_text(),
    {
        match self {
            MimeType::Svg => true,
            MimeType::Text => true,
            MimeType::Css => true,
            MimeType::Csv => true,
            MimeType::Html => true,
            MimeType::Javascript => true,
            MimeType::Json => true,
            MimeType::JsonLd => true,
            MimeType::Xml => true,
            MimeType::Csh => true,
            MimeType::Ics => true,
            MimeType::Php => true,
            MimeType::Sh => true,
            MimeType::Xhtml => true,
            _ => false,
        }
    }
}

/// The first index holding a `;` or a space, or the length: where the bare
/// mimetype in a header value ends.
pub open spec fn spec_scan_delim(s: Seq<char>) -> int
    decreases s.len(),
{
    if s.len() == 0 {
        0
    } else if s[0] == ';' || s[0] == ' ' {
        0
    } else {
        1 + spec_scan_delim(s.drop_first())
    }
}

/// What [`spec_scan_delim`] returns: the first `;` or space, or the length.
pub proof fn lemma_scan_delim(s: Seq<char>)
    ensures
        0 <= spec_scan_delim(s) <= s.len(),
        forall|j: int|
            0 <= j < spec_scan_delim(s) ==> #[trigger] s[j] != ';' && s[j] != ' ',
        spec_scan_delim(s) < s.len() ==> (s[spec_scan_delim(s)] == ';' || s[spec_scan_delim(s)]
            == ' '),
    decreases s.len(),
{
    if s.len() > 0 && s[0] != ';' && s[0] != ' ' {
        lemma_scan_delim(s.drop_first());
        assert forall|j: int| 0 <= j < spec_scan_delim(s) implies #[trigger] s[j] != ';' && s[j]
            != ' ' by {
            if j > 0 {
                assert(s.drop_first()[j - 1] == s[j]);
            }
        }
        if spec_scan_delim(s) < s.len() {
            assert(s.drop_first()[spec_scan_delim(s.drop_first())] == s[spec_scan_delim(s)]);
        }
    }
}

/// Whether the character at `i` is neither `;` nor a space.
fn at_plain_char(s: &str, i: usize) -> (r: bool)
    requires
        i < s@.len(),
    ensures
        r == (s@[i as int] != ';' && s@[i as int] != ' '),
{
    let c = s.get_char(i);
    !(c == ';' || c == ' ')
}

impl MimeType {
    /// The bare mimetype inside a header value: surrounding whitespace
    /// removed, and any `;` parameters or trailing words cut off.
    pub open spec fn spec_header_body(s: Seq<char>) -> Seq<char> {
        let t = spec_trim(s);
        spec_trim(t.take(spec_scan_delim(t)))
    }

    /// Parse a mimetype from a string that may contain whitespace or `;`
    /// parameters.
    ///
    /// Parameters are discarded; write your own parser if you need them.
    pub fn from_header(s: &str) -> (r: MimeType)
        ensures
            Self::spec_parse(Self::spec_header_body(s@)) matches Some(m) ==> r == m,
            Self::spec_parse(Self::spec_header_body(s@)) is None ==> (r matches MimeType::Other(o)
                && o@ == Self::spec_header_body(s@)),
    {
        let n = s.unicode_len();
        let (a, b) = trimmed_range(s, 0, n);
        let ghost t = Self::spec_header_body(s@);
        proof {
            assert(s@.subrange(0, n as int) =~= s@);
        }
        // cut at the first `;` or space
        let mut i = a;
        while i < b && at_plain_char(s, i)
            invariant
                a <= i <= b <= s@.len(),
                forall|j: int| a <= j < i ==> #[trigger] s@[j] != ';' && s@[j] != ' ',
            decreases b - i,
        {
            i += 1;
        }
        proof {
            let tr = s@.subrange(a as int, b as int);
            lemma_scan_delim(tr);
            assert(forall|j: int| 0 <= j < tr.len() ==> #[trigger] tr[j] == s@[a + j]);
            assert(spec_scan_delim(tr) == i - a) by {
                let sd = spec_scan_delim(tr);
                if sd < i - a {
                    assert(tr[sd] == s@[a + sd]);
                    assert(s@[a + sd] != ';' && s@[a + sd] != ' ');
                } else if sd > i - a {
                    assert(i < b);
                    assert(tr[i - a] == s@[i as int]);
                }
            }
            assert(tr.take(i - a) =~= s@.subrange(a as int, i as int));
        }
        let (a2, b2) = trimmed_range(s, a, i);
        Self::from_str(s.substring_char(a2, b2))
    }
}

/// Round-trip law: parsing the canonical string of a recognized mimetype
/// gives that mimetype back. `Other` is excluded because its string is
/// arbitrary.
pub proof fn lemma_mime_roundtrip(m: MimeType)
    requires
        !(m is Other),
    ensures
        MimeType::spec_parse(m.spec_canonical()) == Some(m),
{
    reveal_strlit("application/octet-stream");
    reveal_strlit("audio/aac");
    reveal_strlit("audio/flac");
    reveal_strlit("audio/midi");
    reveal_strlit("audio/x-midi");
    reveal_strlit("audio/mpeg");
    reveal_strlit("audio/ogg");
    reveal_strlit("audio/opus");
    reveal_strlit("audio/wav");
    reveal_strlit("audio/webm");
    reveal_strlit("video/x-msvideo");
    reveal_strlit("video/mp4");
    reveal_strlit("video/mpeg");
    reveal_strlit("video/ogg");
    reveal_strlit("video/mp2t");
    reveal_strlit("video/webm");
    reveal_strlit("video/3gpp");
    reveal_strlit("video/3gpp2");
    reveal_strlit("image/apng");
    reveal_strlit("image/avif");
    reveal_strlit("image/bmp");
    reveal_strlit("image/gif");
    reveal_strlit("image/vnd.microsoft.icon");
    reveal_strlit("image/jpeg");
    reveal_strlit("image/jpg");
    reveal_strlit("image/png");
    reveal_strlit("image/svg+xml");
    reveal_strlit("image/tiff");
    reveal_strlit("image/webp");
    reveal_strlit("image/qoi");
    reveal_strlit("text/plain");
    reveal_strlit("text/css");
    reveal_strlit("text/csv");
    reveal_strlit("text/html");
    reveal_strlit("text/javascript");
    reveal_strlit("application/json");
    reveal_strlit("application/ld+json");
    reveal_strlit("application/xml");
    reveal_strlit("text/xml");
    reveal_strlit("application/pdf");
    reveal_strlit("application/rtf");
    reveal_strlit("application/x-freearc");
    reveal_strlit("application/x-bzip");
    reveal_strlit("application/x-bzip2");
    reveal_strlit("application/gzip");
    reveal_strlit("application/x-gzip");
    reveal_strlit("application/java-archive");
    reveal_strlit("application/ogg");
    reveal_strlit("application/vnd.rar");
    reveal_strlit("application/x-7z-compressed");
    reveal_strlit("application/x-tar");
    reveal_strlit("application/zip");
    reveal_strlit("application/x-zip-compressed");
    reveal_strlit("application/vnd.ms-fontobject");
    reveal_strlit("font/otf");
    reveal_strlit("font/ttf");
    reveal_strlit("font/woff");
    reveal_strlit("font/woff2");
    reveal_strlit("application/x-abiword");
    reveal_strlit("application/vnd.amazon.ebook");
    reveal_strlit("application/x-cdf");
    reveal_strlit("application/x-csh");
    reveal_strlit("application/msword");
    reveal_strlit("application/vnd.openxmlformats-officedocument.wordprocessingml.document");
    reveal_strlit("application/epub+zip");
    reveal_strlit("text/calendar");
    reveal_strlit("application/vnd.apple.installer+xml");
    reveal_strlit("application/vnd.oasis.opendocument.presentation");
    reveal_strlit("application/vnd.oasis.opendocument.spreadsheet");
    reveal_strlit("application/vnd.oasis.opendocument.text");
    reveal_strlit("application/x-httpd-php");
    reveal_strlit("application/vnd.ms-powerpoint");
    reveal_strlit("application/vnd.openxmlformats-officedocument.presentationml.presentation");
    reveal_strlit("application/x-sh");
    reveal_strlit("application/vnd.visio");
    reveal_strlit("application/xhtml+xml");
    reveal_strlit("application/vnd.ms-excel");
    reveal_strlit("application/vnd.openxmlformats-officedocument.spreadsheetml.sheet");
    reveal_strlit("application/vnd.mozilla.xul+xml");
    assert("application/octet-stream"@.len() == 24);
    assert("audio/aac"@.len() == 9);
    assert("audio/flac"@.len() == 10);
    assert("audio/midi"@.len() == 10);
    assert("audio/x-midi"@.len() == 12);
    assert("audio/mpeg"@.len() == 10);
    assert("audio/ogg"@.len() == 9);
    assert("audio/opus"@.len() == 10);
    assert("audio/wav"@.len() == 9);
    assert("audio/webm"@.len() == 10);
    assert("video/x-msvideo"@.len() == 15);
    assert("video/mp4"@.len() == 9);
    assert("video/mpeg"@.len() == 10);
    assert("video/ogg"@.len() == 9);
    assert("video/mp2t"@.len() == 10);
    assert("video/webm"@.len() == 10);
    assert("video/3gpp"@.len() == 10);
    assert("video/3gpp2"@.len() == 11);
    assert("image/apng"@.len() == 10);
    assert("image/avif"@.len() == 10);
    assert("image/bmp"@.len() == 9);
    assert("image/gif"@.len() == 9);
    assert("image/vnd.microsoft.icon"@.len() == 24);
    assert("image/jpeg"@.len() == 10);
    assert("image/jpg"@.len() == 9);
    assert("image/png"@.len() == 9);
    assert("image/svg+xml"@.len() == 13);
    assert("image/tiff"@.len() == 10);
    assert("image/webp"@.len() == 10);
    assert("image/qoi"@.len() == 9);
    assert("text/plain"@.len() == 10);
    assert("text/css"@.len() == 8);
    assert("text/csv"@.len() == 8);
    assert("text/html"@.len() == 9);
    assert("text/javascript"@.len() == 15);
    assert("application/json"@.len() == 16);
    assert("application/ld+json"@.len() == 19);
    assert("application/xml"@.len() == 15);
    assert("text/xml"@.len() == 8);
    assert("application/pdf"@.len() == 15);
    assert("application/rtf"@.len() == 15);
    assert("application/x-freearc"@.len() == 21);
    assert("application/x-bzip"@.len() == 18);
    assert("application/x-bzip2"@.len() == 19);
    assert("application/gzip"@.len() == 16);
    assert("application/x-gzip"@.len() == 18);
    assert("application/java-archive"@.len() == 24);
    assert("application/ogg"@.len() == 15);
    assert("application/vnd.rar"@.len() == 19);
    assert("application/x-7z-compressed"@.len() == 27);
    assert("application/x-tar"@.len() == 17);
    assert("application/zip"@.len() == 15);
    assert("application/x-zip-compressed"@.len() == 28);
    assert("application/vnd.ms-fontobject"@.len() == 29);
    assert("font/otf"@.len() == 8);
    assert("font/ttf"@.len() == 8);
    assert("font/woff"@.len() == 9);
    assert("font/woff2"@.len() == 10);
    assert("application/x-abiword"@.len() == 21);
    assert("application/vnd.amazon.ebook"@.len() == 28);
    assert("application/x-cdf"@.len() == 17);
    assert("application/x-csh"@.len() == 17);
    assert("application/msword"@.len() == 18);
    assert("application/vnd.openxmlformats-officedocument.wordprocessingml.document"@.len() == 71);
    assert("application/epub+zip"@.len() == 20);
    assert("text/calendar"@.len() == 13);
    assert("application/vnd.apple.installer+xml"@.len() == 35);
    assert("application/vnd.oasis.opendocument.presentation"@.len() == 47);
    assert("application/vnd.oasis.opendocument.spreadsheet"@.len() == 46);
    assert("application/vnd.oasis.opendocument.text"@.len() == 39);
    assert("application/x-httpd-php"@.len() == 23);
    assert("application/vnd.ms-powerpoint"@.len() == 29);
    assert("application/vnd.openxmlformats-officedocument.presentationml.presentation"@.len() == 73);
    assert("application/x-sh"@.len() == 16);
    assert("application/vnd.visio"@.len() == 21);
    assert("application/xhtml+xml"@.len() == 21);
    assert("application/vnd.ms-excel"@.len() == 24);
    assert("application/vnd.openxmlformats-officedocument.spreadsheetml.sheet"@.len() == 65);
    assert("application/vnd.mozilla.xul+xml"@.len() == 31);
    assert("text/css"@[7] == 's' && "text/csv"@[7] == 'v');
    assert("text/css"@[5] == 'c' && "text/xml"@[5] == 'x');
    assert("text/css"@[0] == 't' && "font/otf"@[0] == 'f');
    assert("text/css"@[0] == 't' && "font/ttf"@[0] == 'f');
    assert("text/csv"@[5] == 'c' && "text/xml"@[5] == 'x');
    assert("text/csv"@[0] == 't' && "font/otf"@[0] == 'f');
    assert("text/csv"@[0] == 't' && "font/ttf"@[0] == 'f');
    assert("text/xml"@[0] == 't' && "font/otf"@[0] == 'f');
    assert("text/xml"@[0] == 't' && "font/ttf"@[0] == 'f');
    assert("font/otf"@[5] == 'o' && "font/ttf"@[5] == 't');
    assert("audio/aac"@[6] == 'a' && "audio/ogg"@[6] == 'o');
    assert("audio/aac"@[6] == 'a' && "audio/wav"@[6] == 'w');
    assert("audio/aac"@[0] == 'a' && "video/mp4"@[0] == 'v');
    assert("audio/aac"@[0] == 'a' && "video/ogg"@[0] == 'v');
    assert("audio/aac"@[0] == 'a' && "image/bmp"@[0] == 'i');
    assert("audio/aac"@[0] == 'a' && "image/gif"@[0] == 'i');
    assert("audio/aac"@[0] == 'a' && "image/jpg"@[0] == 'i');
    assert("audio/aac"@[0] == 'a' && "image/png"@[0] == 'i');
    assert("audio/aac"@[0] == 'a' && "image/qoi"@[0] == 'i');
    assert("audio/aac"@[0] == 'a' && "text/html"@[0] == 't');
    assert("audio/aac"@[0] == 'a' && "font/woff"@[0] == 'f');
    assert("audio/ogg"@[6] == 'o' && "audio/wav"@[6] == 'w');
    assert("audio/ogg"@[0] == 'a' && "video/mp4"@[0] == 'v');
    assert("audio/ogg"@[0] == 'a' && "video/ogg"@[0] == 'v');
    assert("audio/ogg"@[0] == 'a' && "image/bmp"@[0] == 'i');
    assert("audio/ogg"@[0] == 'a' && "image/gif"@[0] == 'i');
    assert("audio/ogg"@[0] == 'a' && "image/jpg"@[0] == 'i');
    assert("audio/ogg"@[0] == 'a' && "image/png"@[0] == 'i');
    assert("audio/ogg"@[0] == 'a' && "image/qoi"@[0] == 'i');
    assert("audio/ogg"@[0] == 'a' && "text/html"@[0] == 't');
    assert("audio/ogg"@[0] == 'a' && "font/woff"@[0] == 'f');
    assert("audio/wav"@[0] == 'a' && "video/mp4"@[0] == 'v');
    assert("audio/wav"@[0] == 'a' && "video/ogg"@[0] == 'v');
    assert("audio/wav"@[0] == 'a' && "image/bmp"@[0] == 'i');
    assert("audio/wav"@[0] == 'a' && "image/gif"@[0] == 'i');
    assert("audio/wav"@[0] == 'a' && "image/jpg"@[0] == 'i');
    assert("audio/wav"@[0] == 'a' && "image/png"@[0] == 'i');
    assert("audio/wav"@[0] == 'a' && "image/qoi"@[0] == 'i');
    assert("audio/wav"@[0] == 'a' && "text/html"@[0] == 't');
    assert("audio/wav"@[0] == 'a' && "font/woff"@[0] == 'f');
    assert("video/mp4"@[6] == 'm' && "video/ogg"@[6] == 'o');
    assert("video/mp4"@[0] == 'v' && "image/bmp"@[0] == 'i');
    assert("video/mp4"@[0] == 'v' && "image/gif"@[0] == 'i');
    assert("video/mp4"@[0] == 'v' && "image/jpg"@[0] == 'i');
    assert("video/mp4"@[0] == 'v' && "image/png"@[0] == 'i');
    assert("video/mp4"@[0] == 'v' && "image/qoi"@[0] == 'i');
    assert("video/mp4"@[0] == 'v' && "text/html"@[0] == 't');
    assert("video/mp4"@[0] == 'v' && "font/woff"@[0] == 'f');
    assert("video/ogg"@[0] == 'v' && "image/bmp"@[0] == 'i');
    assert("video/ogg"@[0] == 'v' && "image/gif"@[0] == 'i');
    assert("video/ogg"@[0] == 'v' && "image/jpg"@[0] == 'i');
    assert("video/ogg"@[0] == 'v' && "image/png"@[0] == 'i');
    assert("video/ogg"@[0] == 'v' && "image/qoi"@[0] == 'i');
    assert("video/ogg"@[0] == 'v' && "text/html"@[0] == 't');
    assert("video/ogg"@[0] == 'v' && "font/woff"@[0] == 'f');
    assert("image/bmp"@[6] == 'b' && "image/gif"@[6] == 'g');
    assert("image/bmp"@[6] == 'b' && "image/jpg"@[6] == 'j');
    assert("image/bmp"@[6] == 'b' && "image/png"@[6] == 'p');
    assert("image/bmp"@[6] == 'b' && "image/qoi"@[6] == 'q');
    assert("image/bmp"@[0] == 'i' && "text/html"@[0] == 't');
    assert("image/bmp"@[0] == 'i' && "font/woff"@[0] == 'f');
    assert("image/gif"@[6] == 'g' && "image/jpg"@[6] == 'j');
    assert("image/gif"@[6] == 'g' && "image/png"@[6] == 'p');
    assert("image/gif"@[6] == 'g' && "image/qoi"@[6] == 'q');
    assert("image/gif"@[0] == 'i' && "text/html"@[0] == 't');
    assert("image/gif"@[0] == 'i' && "font/woff"@[0] == 'f');
    assert("image/jpg"@[6] == 'j' && "image/png"@[6] == 'p');
    assert("image/jpg"@[6] == 'j' && "image/qoi"@[6] == 'q');
    assert("image/jpg"@[0] == 'i' && "text/html"@[0] == 't');
    assert("image/jpg"@[0] == 'i' && "font/woff"@[0] == 'f');
    assert("image/png"@[6] == 'p' && "image/qoi"@[6] == 'q');
    assert("image/png"@[0] == 'i' && "text/html"@[0] == 't');
    assert("image/png"@[0] == 'i' && "font/woff"@[0] == 'f');
    assert("image/qoi"@[0] == 'i' && "text/html"@[0] == 't');
    assert("image/qoi"@[0] == 'i' && "font/woff"@[0] == 'f');
    assert("text/html"@[0] == 't' && "font/woff"@[0] == 'f');
    assert("audio/flac"@[6] == 'f' && "audio/midi"@[6] == 'm');
    assert("audio/flac"@[6] == 'f' && "audio/mpeg"@[6] == 'm');
    assert("audio/flac"@[6] == 'f' && "audio/opus"@[6] == 'o');
    assert("audio/flac"@[6] == 'f' && "audio/webm"@[6] == 'w');
    assert("audio/flac"@[0] == 'a' && "video/mpeg"@[0] == 'v');
    assert("audio/flac"@[0] == 'a' && "video/mp2t"@[0] == 'v');
    assert("audio/flac"@[0] == 'a' && "video/webm"@[0] == 'v');
    assert("audio/flac"@[0] == 'a' && "video/3gpp"@[0] == 'v');
    assert("audio/flac"@[0] == 'a' && "image/apng"@[0] == 'i');
    assert("audio/flac"@[0] == 'a' && "image/avif"@[0] == 'i');
    assert("audio/flac"@[0] == 'a' && "image/jpeg"@[0] == 'i');
    assert("audio/flac"@[0] == 'a' && "image/tiff"@[0] == 'i');
    assert("audio/flac"@[0] == 'a' && "image/webp"@[0] == 'i');
    assert("audio/flac"@[0] == 'a' && "text/plain"@[0] == 't');
    assert("audio/flac"@[0] == 'a' && "font/woff2"@[0] == 'f');
    assert("audio/midi"@[7] == 'i' && "audio/mpeg"@[7] == 'p');
    assert("audio/midi"@[6] == 'm' && "audio/opus"@[6] == 'o');
    assert("audio/midi"@[6] == 'm' && "audio/webm"@[6] == 'w');
    assert("audio/midi"@[0] == 'a' && "video/mpeg"@[0] == 'v');
    assert("audio/midi"@[0] == 'a' && "video/mp2t"@[0] == 'v');
    assert("audio/midi"@[0] == 'a' && "video/webm"@[0] == 'v');
    assert("audio/midi"@[0] == 'a' && "video/3gpp"@[0] == 'v');
    assert("audio/midi"@[0] == 'a' && "image/apng"@[0] == 'i');
    assert("audio/midi"@[0] == 'a' && "image/avif"@[0] == 'i');
    assert("audio/midi"@[0] == 'a' && "image/jpeg"@[0] == 'i');
    assert("audio/midi"@[0] == 'a' && "image/tiff"@[0] == 'i');
    assert("audio/midi"@[0] == 'a' && "image/webp"@[0] == 'i');
    assert("audio/midi"@[0] == 'a' && "text/plain"@[0] == 't');
    assert("audio/midi"@[0] == 'a' && "font/woff2"@[0] == 'f');
    assert("audio/mpeg"@[6] == 'm' && "audio/opus"@[6] == 'o');
    assert("audio/mpeg"@[6] == 'm' && "audio/webm"@[6] == 'w');
    assert("audio/mpeg"@[0] == 'a' && "video/mpeg"@[0] == 'v');
    assert("audio/mpeg"@[0] == 'a' && "video/mp2t"@[0] == 'v');
    assert("audio/mpeg"@[0] == 'a' && "video/webm"@[0] == 'v');
    assert("audio/mpeg"@[0] == 'a' && "video/3gpp"@[0] == 'v');
    assert("audio/mpeg"@[0] == 'a' && "image/apng"@[0] == 'i');
    assert("audio/mpeg"@[0] == 'a' && "image/avif"@[0] == 'i');
    assert("audio/mpeg"@[0] == 'a' && "image/jpeg"@[0] == 'i');
    assert("audio/mpeg"@[0] == 'a' && "image/tiff"@[0] == 'i');
    assert("audio/mpeg"@[0] == 'a' && "image/webp"@[0] == 'i');
    assert("audio/mpeg"@[0] == 'a' && "text/plain"@[0] == 't');
    assert("audio/mpeg"@[0] == 'a' && "font/woff2"@[0] == 'f');
    assert("audio/opus"@[6] == 'o' && "audio/webm"@[6] == 'w');
    assert("audio/opus"@[0] == 'a' && "video/mpeg"@[0] == 'v');
    assert("audio/opus"@[0] == 'a' && "video/mp2t"@[0] == 'v');
    assert("audio/opus"@[0] == 'a' && "video/webm"@[0] == 'v');
    assert("audio/opus"@[0] == 'a' && "video/3gpp"@[0] == 'v');
    assert("audio/opus"@[0] == 'a' && "image/apng"@[0] == 'i');
    assert("audio/opus"@[0] == 'a' && "image/avif"@[0] == 'i');
    assert("audio/opus"@[0] == 'a' && "image/jpeg"@[0] == 'i');
    assert("audio/opus"@[0] == 'a' && "image/tiff"@[0] == 'i');
    assert("audio/opus"@[0] == 'a' && "image/webp"@[0] == 'i');
    assert("audio/opus"@[0] == 'a' && "text/plain"@[0] == 't');
    assert("audio/opus"@[0] == 'a' && "font/woff2"@[0] == 'f');
    assert("audio/webm"@[0] == 'a' && "video/mpeg"@[0] == 'v');
    assert("audio/webm"@[0] == 'a' && "video/mp2t"@[0] == 'v');
    assert("audio/webm"@[0] == 'a' && "video/webm"@[0] == 'v');
    assert("audio/webm"@[0] == 'a' && "video/3gpp"@[0] == 'v');
    assert("audio/webm"@[0] == 'a' && "image/apng"@[0] == 'i');
    assert("audio/webm"@[0] == 'a' && "image/avif"@[0] == 'i');
    assert("audio/webm"@[0] == 'a' && "image/jpeg"@[0] == 'i');
    assert("audio/webm"@[0] == 'a' && "image/tiff"@[0] == 'i');
    assert("audio/webm"@[0] == 'a' && "image/webp"@[0] == 'i');
    assert("audio/webm"@[0] == 'a' && "text/plain"@[0] == 't');
    assert("audio/webm"@[0] == 'a' && "font/woff2"@[0] == 'f');
    assert("video/mpeg"@[8] == 'e' && "video/mp2t"@[8] == '2');
    assert("video/mpeg"@[6] == 'm' && "video/webm"@[6] == 'w');
    assert("video/mpeg"@[6] == 'm' && "video/3gpp"@[6] == '3');
    assert("video/mpeg"@[0] == 'v' && "image/apng"@[0] == 'i');
    assert("video/mpeg"@[0] == 'v' && "image/avif"@[0] == 'i');
    assert("video/mpeg"@[0] == 'v' && "image/jpeg"@[0] == 'i');
    assert("video/mpeg"@[0] == 'v' && "image/tiff"@[0] == 'i');
    assert("video/mpeg"@[0] == 'v' && "image/webp"@[0] == 'i');
    assert("video/mpeg"@[0] == 'v' && "text/plain"@[0] == 't');
    assert("video/mpeg"@[0] == 'v' && "font/woff2"@[0] == 'f');
    assert("video/mp2t"@[6] == 'm' && "video/webm"@[6] == 'w');
    assert("video/mp2t"@[6] == 'm' && "video/3gpp"@[6] == '3');
    assert("video/mp2t"@[0] == 'v' && "image/apng"@[0] == 'i');
    assert("video/mp2t"@[0] == 'v' && "image/avif"@[0] == 'i');
    assert("video/mp2t"@[0] == 'v' && "image/jpeg"@[0] == 'i');
    assert("video/mp2t"@[0] == 'v' && "image/tiff"@[0] == 'i');
    assert("video/mp2t"@[0] == 'v' && "image/webp"@[0] == 'i');
    assert("video/mp2t"@[0] == 'v' && "text/plain"@[0] == 't');
    assert("video/mp2t"@[0] == 'v' && "font/woff2"@[0] == 'f');
    assert("video/webm"@[6] == 'w' && "video/3gpp"@[6] == '3');
    assert("video/webm"@[0] == 'v' && "image/apng"@[0] == 'i');
    assert("video/webm"@[0] == 'v' && "image/avif"@[0] == 'i');
    assert("video/webm"@[0] == 'v' && "image/jpeg"@[0] == 'i');
    assert("video/webm"@[0] == 'v' && "image/tiff"@[0] == 'i');
    assert("video/webm"@[0] == 'v' && "image/webp"@[0] == 'i');
    assert("video/webm"@[0] == 'v' && "text/plain"@[0] == 't');
    assert("video/webm"@[0] == 'v' && "font/woff2"@[0] == 'f');
    assert("video/3gpp"@[0] == 'v' && "image/apng"@[0] == 'i');
    assert("video/3gpp"@[0] == 'v' && "image/avif"@[0] == 'i');
    assert("video/3gpp"@[0] == 'v' && "image/jpeg"@[0] == 'i');
    assert("video/3gpp"@[0] == 'v' && "image/tiff"@[0] == 'i');
    assert("video/3gpp"@[0] == 'v' && "image/webp"@[0] == 'i');
    assert("video/3gpp"@[0] == 'v' && "text/plain"@[0] == 't');
    assert("video/3gpp"@[0] == 'v' && "font/woff2"@[0] == 'f');
    assert("image/apng"@[7] == 'p' && "image/avif"@[7] == 'v');
    assert("image/apng"@[6] == 'a' && "image/jpeg"@[6] == 'j');
    assert("image/apng"@[6] == 'a' && "image/tiff"@[6] == 't');
    assert("image/apng"@[6] == 'a' && "image/webp"@[6] == 'w');
    assert("image/apng"@[0] == 'i' && "text/plain"@[0] == 't');
    assert("image/apng"@[0] == 'i' && "font/woff2"@[0] == 'f');
    assert("image/avif"@[6] == 'a' && "image/jpeg"@[6] == 'j');
    assert("image/avif"@[6] == 'a' && "image/tiff"@[6] == 't');
    assert("image/avif"@[6] == 'a' && "image/webp"@[6] == 'w');
    assert("image/avif"@[0] == 'i' && "text/plain"@[0] == 't');
    assert("image/avif"@[0] == 'i' && "font/woff2"@[0] == 'f');
    assert("image/jpeg"@[6] == 'j' && "image/tiff"@[6] == 't');
    assert("image/jpeg"@[6] == 'j' && "image/webp"@[6] == 'w');
    assert("image/jpeg"@[0] == 'i' && "text/plain"@[0] == 't');
    assert("image/jpeg"@[0] == 'i' && "font/woff2"@[0] == 'f');
    assert("image/tiff"@[6] == 't' && "image/webp"@[6] == 'w');
    assert("image/tiff"@[0] == 'i' && "text/plain"@[0] == 't');
    assert("image/tiff"@[0] == 'i' && "font/woff2"@[0] == 'f');
    assert("image/webp"@[0] == 'i' && "text/plain"@[0] == 't');
    assert("image/webp"@[0] == 'i' && "font/woff2"@[0] == 'f');
    assert("text/plain"@[0] == 't' && "font/woff2"@[0] == 'f');
    assert("image/svg+xml"@[0] == 'i' && "text/calendar"@[0] == 't');
    assert("video/x-msvideo"@[0] == 'v' && "text/javascript"@[0] == 't');
    assert("video/x-msvideo"@[0] == 'v' && "application/xml"@[0] == 'a');
    assert("video/x-msvideo"@[0] == 'v' && "application/pdf"@[0] == 'a');
    assert("video/x-msvideo"@[0] == 'v' && "application/rtf"@[0] == 'a');
    assert("video/x-msvideo"@[0] == 'v' && "application/ogg"@[0] == 'a');
    assert("video/x-msvideo"@[0] == 'v' && "application/zip"@[0] == 'a');
    assert("text/javascript"@[0] == 't' && "application/xml"@[0] == 'a');
    assert("text/javascript"@[0] == 't' && "application/pdf"@[0] == 'a');
    assert("text/javascript"@[0] == 't' && "application/rtf"@[0] == 'a');
    assert("text/javascript"@[0] == 't' && "application/ogg"@[0] == 'a');
    assert("text/javascript"@[0] == 't' && "application/zip"@[0] == 'a');
    assert("application/xml"@[12] == 'x' && "application/pdf"@[12] == 'p');
    assert("application/xml"@[12] == 'x' && "application/rtf"@[12] == 'r');
    assert("application/xml"@[12] == 'x' && "application/ogg"@[12] == 'o');
    assert("application/xml"@[12] == 'x' && "application/zip"@[12] == 'z');
    assert("application/pdf"@[12] == 'p' && "application/rtf"@[12] == 'r');
    assert("application/pdf"@[12] == 'p' && "application/ogg"@[12] == 'o');
    assert("application/pdf"@[12] == 'p' && "application/zip"@[12] == 'z');
    assert("application/rtf"@[12] == 'r' && "application/ogg"@[12] == 'o');
    assert("application/rtf"@[12] == 'r' && "application/zip"@[12] == 'z');
    assert("application/ogg"@[12] == 'o' && "application/zip"@[12] == 'z');
    assert("application/json"@[12] == 'j' && "application/gzip"@[12] == 'g');
    assert("application/json"@[12] == 'j' && "application/x-sh"@[12] == 'x');
    assert("application/gzip"@[12] == 'g' && "application/x-sh"@[12] == 'x');
    assert("application/x-tar"@[14] == 't' && "application/x-cdf"@[14] == 'c');
    assert("application/x-tar"@[14] == 't' && "application/x-csh"@[14] == 'c');
    assert("application/x-cdf"@[15] == 'd' && "application/x-csh"@[15] == 's');
    assert("application/x-bzip"@[14] == 'b' && "application/x-gzip"@[14] == 'g');
    assert("application/x-bzip"@[12] == 'x' && "application/msword"@[12] == 'm');
    assert("application/x-gzip"@[12] == 'x' && "application/msword"@[12] == 'm');
    assert("application/ld+json"@[12] == 'l' && "application/x-bzip2"@[12] == 'x');
    assert("application/ld+json"@[12] == 'l' && "application/vnd.rar"@[12] == 'v');
    assert("application/x-bzip2"@[12] == 'x' && "application/vnd.rar"@[12] == 'v');
    assert("application/x-freearc"@[14] == 'f' && "application/x-abiword"@[14] == 'a');
    assert("application/x-freearc"@[12] == 'x' && "application/vnd.visio"@[12] == 'v');
    assert("application/x-freearc"@[13] == '-' && "application/xhtml+xml"@[13] == 'h');
    assert("application/x-abiword"@[12] == 'x' && "application/vnd.visio"@[12] == 'v');
    assert("application/x-abiword"@[13] == '-' && "application/xhtml+xml"@[13] == 'h');
    assert("application/vnd.visio"@[12] == 'v' && "application/xhtml+xml"@[12] == 'x');
    assert("application/octet-stream"@[0] == 'a' && "image/vnd.microsoft.icon"@[0] == 'i');
    assert("application/octet-stream"@[12] == 'o' && "application/java-archive"@[12] == 'j');
    assert("application/octet-stream"@[12] == 'o' && "application/vnd.ms-excel"@[12] == 'v');
    assert("image/vnd.microsoft.icon"@[0] == 'i' && "application/java-archive"@[0] == 'a');
    assert("image/vnd.microsoft.icon"@[0] == 'i' && "application/vnd.ms-excel"@[0] == 'a');
    assert("application/java-archive"@[12] == 'j' && "application/vnd.ms-excel"@[12] == 'v');
    assert("application/x-zip-compressed"@[12] == 'x' && "application/vnd.amazon.ebook"@[12] == 'v');
    assert("application/vnd.ms-fontobject"@[19] == 'f' && "application/vnd.ms-powerpoint"@[19] == 'p');
    match m {
        MimeType::Other(_) => {
        }
        MimeType::Blob => {
            assert(MimeType::spec_parse(m.spec_canonical()) == Some(MimeType::Blob));
        }
        MimeType::Aac => {
            assert(MimeType::spec_parse(m.spec_canonical()) == Some(MimeType::Aac));
        }
        MimeType::Flac => {
            assert(MimeType::spec_parse(m.spec_canonical()) == Some(MimeType::Flac));
        }
        MimeType::Midi => {
            assert(MimeType::spec_parse(m.spec_canonical()) == Some(MimeType::Midi));
        }
        MimeType::Mp3 => {
            assert(MimeType::spec_parse(m.spec_canonical()) == Some(MimeType::Mp3));
        }
        MimeType::Oga => {
            assert(MimeType::spec_parse(m.spec_canonical()) == Some(MimeType::Oga));
        }
        MimeType::Opus => {
            assert(MimeType::spec_parse(m.spec_canonical()) == Some(MimeType::Opus));
        }
        MimeType::Wav => {
            assert(MimeType::spec_parse(m.spec_canonical()) == Some(MimeType::Wav));
        }
        MimeType::Weba => {
            assert(MimeType::spec_parse(m.spec_canonical()) == Some(MimeType::Weba));
        }
        MimeType::Avi => {
            assert(MimeType::spec_parse(m.spec_canonical()) == Some(MimeType::Avi));
        }
        MimeType::Mp4 => {
            assert(MimeType::spec_parse(m.spec_canonical()) == Some(MimeType::Mp4));
        }
        MimeType::Mpeg => {
            assert(MimeType::spec_parse(m.spec_canonical()) == Some(MimeType::Mpeg));
        }
        MimeType::Ogv => {
            assert(MimeType::spec_parse(m.spec_canonical()) == Some(MimeType::Ogv));
        }
        MimeType::Ts => {
            assert(MimeType::spec_parse(m.spec_canonical()) == Some(MimeType::Ts));
        }
        MimeType::WebmVideo => {
            assert(MimeType::spec_parse(m.spec_canonical()) == Some(MimeType::WebmVideo));
        }
        MimeType::ThreeGp => {
            assert(MimeType::spec_parse(m.spec_canonical()) == Some(MimeType::ThreeGp));
        }
        MimeType::ThreeG2 => {
            assert(MimeType::spec_parse(m.spec_canonical()) == Some(MimeType::ThreeG2));
        }
        MimeType::Apng => {
            assert(MimeType::spec_parse(m.spec_canonical()) == Some(MimeType::Apng));
        }
        MimeType::Avif => {
            assert(MimeType::spec_parse(m.spec_canonical()) == Some(MimeType::Avif));
        }
        MimeType::Bmp => {
            assert(MimeType::spec_parse(m.spec_canonical()) == Some(MimeType::Bmp));
        }
        MimeType::Gif => {
            assert(MimeType::spec_parse(m.spec_canonical()) == Some(MimeType::Gif));
        }
        MimeType::Ico => {
            assert(MimeType::spec_parse(m.spec_canonical()) == Some(MimeType::Ico));
        }
        MimeType::Jpg => {
            assert(MimeType::spec_parse(m.spec_canonical()) == Some(MimeType::Jpg));
        }
        MimeType::Png => {
            assert(MimeType::spec_parse(m.spec_canonical()) == Some(MimeType::Png));
        }
        MimeType::Svg => {
            assert(MimeType::spec_parse(m.spec_canonical()) == Some(MimeType::Svg));
        }
        MimeType::Tiff => {
            assert(MimeType::spec_parse(m.spec_canonical()) == Some(MimeType::Tiff));
        }
        MimeType::Webp => {
            assert(MimeType::spec_parse(m.spec_canonical()) == Some(MimeType::Webp));
        }
        MimeType::Qoi => {
            assert(MimeType::spec_parse(m.spec_canonical()) == Some(MimeType::Qoi));
        }
        MimeType::Text => {
            assert(MimeType::spec_parse(m.spec_canonical()) == Some(MimeType::Text));
        }
        MimeType::Css => {
            assert(MimeType::spec_parse(m.spec_canonical()) == Some(MimeType::Css));
        }
        MimeType::Csv => {
            assert(MimeType::spec_parse(m.spec_canonical()) == Some(MimeType::Csv));
        }
        MimeType::Html => {
            assert(MimeType::spec_parse(m.spec_canonical()) == Some(MimeType::Html));
        }
        MimeType::Javascript => {
            assert(MimeType::spec_parse(m.spec_canonical()) == Some(MimeType::Javascript));
        }
        MimeType::Json => {
            assert(MimeType::spec_parse(m.spec_canonical()) == Some(MimeType::Json));
        }
        MimeType::JsonLd => {
            assert(MimeType::spec_parse(m.spec_canonical()) == Some(MimeType::JsonLd));
        }
        MimeType::Xml => {
            assert(MimeType::spec_parse(m.spec_canonical()) == Some(MimeType::Xml));
        }
        MimeType::Pdf => {
            assert(MimeType::spec_parse(m.spec_canonical()) == Some(MimeType::Pdf));
        }
        MimeType::Rtf => {
            assert(MimeType::spec_parse(m.spec_canonical()) == Some(MimeType::Rtf));
        }
        MimeType::Arc => {
            assert(MimeType::spec_parse(m.spec_canonical()) == Some(MimeType::Arc));
        }
        MimeType::Bz => {
            assert(MimeType::spec_parse(m.spec_canonical()) == Some(MimeType::Bz));
        }
        MimeType::Bz2 => {
            assert(MimeType::spec_parse(m.spec_canonical()) == Some(MimeType::Bz2));
        }
        MimeType::Gz => {
            assert(MimeType::spec_parse(m.spec_canonical()) == Some(MimeType::Gz));
        }
        MimeType::Jar => {
            assert(MimeType::spec_parse(m.spec_canonical()) == Some(MimeType::Jar));
        }
        MimeType::Ogg => {
            assert(MimeType::spec_parse(m.spec_canonical()) == Some(MimeType::Ogg));
        }
        MimeType::Rar => {
            assert(MimeType::spec_parse(m.spec_canonical()) == Some(MimeType::Rar));
        }
        MimeType::SevenZ => {
            assert(MimeType::spec_parse(m.spec_canonical()) == Some(MimeType::SevenZ));
        }
        MimeType::Tar => {
            assert(MimeType::spec_parse(m.spec_canonical()) == Some(MimeType::Tar));
        }
        MimeType::Zip => {
            assert(MimeType::spec_parse(m.spec_canonical()) == Some(MimeType::Zip));
        }
        MimeType::Eot => {
            assert(MimeType::spec_parse(m.spec_canonical()) == Some(MimeType::Eot));
        }
        MimeType::Otf => {
            assert(MimeType::spec_parse(m.spec_canonical()) == Some(MimeType::Otf));
        }
        MimeType::Ttf => {
            assert(MimeType::spec_parse(m.spec_canonical()) == Some(MimeType::Ttf));
        }
        MimeType::Woff => {
            assert(MimeType::spec_parse(m.spec_canonical()) == Some(MimeType::Woff));
        }
        MimeType::Woff2 => {
            assert(MimeType::spec_parse(m.spec_canonical()) == Some(MimeType::Woff2));
        }
        MimeType::Abiword => {
            assert(MimeType::spec_parse(m.spec_canonical()) == Some(MimeType::Abiword));
        }
        MimeType::Azw => {
            assert(MimeType::spec_parse(m.spec_canonical()) == Some(MimeType::Azw));
        }
        MimeType::Cda => {
            assert(MimeType::spec_parse(m.spec_canonical()) == Some(MimeType::Cda));
        }
        MimeType::Csh => {
            assert(MimeType::spec_parse(m.spec_canonical()) == Some(MimeType::Csh));
        }
        MimeType::Doc => {
            assert(MimeType::spec_parse(m.spec_canonical()) == Some(MimeType::Doc));
        }
        MimeType::Docx => {
            assert(MimeType::spec_parse(m.spec_canonical()) == Some(MimeType::Docx));
        }
        MimeType::Epub => {
            assert(MimeType::spec_parse(m.spec_canonical()) == Some(MimeType::Epub));
        }
        MimeType::Ics => {
            assert(MimeType::spec_parse(m.spec_canonical()) == Some(MimeType::Ics));
        }
        MimeType::Mpkg => {
            assert(MimeType::spec_parse(m.spec_canonical()) == Some(MimeType::Mpkg));
        }
        MimeType::Odp => {
            assert(MimeType::spec_parse(m.spec_canonical()) == Some(MimeType::Odp));
        }
        MimeType::Ods => {
            assert(MimeType::spec_parse(m.spec_canonical()) == Some(MimeType::Ods));
        }
        MimeType::Odt => {
            assert(MimeType::spec_parse(m.spec_canonical()) == Some(MimeType::Odt));
        }
        MimeType::Php => {
            assert(MimeType::spec_parse(m.spec_canonical()) == Some(MimeType::Php));
        }
        MimeType::Ppt => {
            assert(MimeType::spec_parse(m.spec_canonical()) == Some(MimeType::Ppt));
        }
        MimeType::Pptx => {
            assert(MimeType::spec_parse(m.spec_canonical()) == Some(MimeType::Pptx));
        }
        MimeType::Sh => {
            assert(MimeType::spec_parse(m.spec_canonical()) == Some(MimeType::Sh));
        }
        MimeType::Vsd => {
            assert(MimeType::spec_parse(m.spec_canonical()) == Some(MimeType::Vsd));
        }
        MimeType::Xhtml => {
            assert(MimeType::spec_parse(m.spec_canonical()) == Some(MimeType::Xhtml));
        }
        MimeType::Xls => {
            assert(MimeType::spec_parse(m.spec_canonical()) == Some(MimeType::Xls));
        }
        MimeType::Xlsx => {
            assert(MimeType::spec_parse(m.spec_canonical()) == Some(MimeType::Xlsx));
        }
        MimeType::Xul => {
            assert(MimeType::spec_parse(m.spec_canonical()) == Some(MimeType::Xul));
        }
    }
}

} // verus!
