use servable::mime::MimeType;

fn canonical_strings() -> Vec<&'static str> {
    vec![
        "application/octet-stream",
        "audio/aac",
        "audio/flac",
        "audio/midi",
        "audio/mpeg",
        "audio/ogg",
        "audio/opus",
        "audio/wav",
        "audio/webm",
        "video/x-msvideo",
        "video/mp4",
        "video/mpeg",
        "video/ogg",
        "video/mp2t",
        "video/webm",
        "video/3gpp",
        "video/3gpp2",
        "image/apng",
        "image/avif",
        "image/bmp",
        "image/gif",
        "image/vnd.microsoft.icon",
        "image/jpeg",
        "image/png",
        "image/svg+xml",
        "image/tiff",
        "image/webp",
        "image/qoi",
        "text/plain",
        "text/css",
        "text/csv",
        "text/html",
        "text/javascript",
        "application/json",
        "application/ld+json",
        "application/xml",
        "application/pdf",
        "application/rtf",
        "application/x-freearc",
        "application/x-bzip",
        "application/x-bzip2",
        "application/gzip",
        "application/java-archive",
        "application/ogg",
        "application/vnd.rar",
        "application/x-7z-compressed",
        "application/x-tar",
        "application/zip",
        "application/vnd.ms-fontobject",
        "font/otf",
        "font/ttf",
        "font/woff",
        "font/woff2",
        "application/x-abiword",
        "application/vnd.amazon.ebook",
        "application/x-cdf",
        "application/x-csh",
        "application/msword",
        "application/vnd.openxmlformats-officedocument.wordprocessingml.document",
        "application/epub+zip",
        "text/calendar",
        "application/vnd.apple.installer+xml",
        "application/vnd.oasis.opendocument.presentation",
        "application/vnd.oasis.opendocument.spreadsheet",
        "application/vnd.oasis.opendocument.text",
        "application/x-httpd-php",
        "application/vnd.ms-powerpoint",
        "application/vnd.openxmlformats-officedocument.presentationml.presentation",
        "application/x-sh",
        "application/vnd.visio",
        "application/xhtml+xml",
        "application/vnd.ms-excel",
        "application/vnd.openxmlformats-officedocument.spreadsheetml.sheet",
        "application/vnd.mozilla.xul+xml",
    ]
}

#[test]
fn recognized_strings_round_trip() {
    for s in canonical_strings() {
        let m = MimeType::from_str(s);
        assert!(
            !matches!(m, MimeType::Other(_)),
            "expected {s} to be recognized"
        );
        assert_eq!(m.to_string(), s);
    }
}

#[test]
fn aliases_map_to_canonical_strings() {
    assert_eq!(MimeType::from_str("image/jpg").to_string(), "image/jpeg");
    assert_eq!(MimeType::from_str("audio/x-midi").to_string(), "audio/midi");
    assert_eq!(MimeType::from_str("text/xml").to_string(), "application/xml");
    assert_eq!(
        MimeType::from_str("application/x-gzip").to_string(),
        "application/gzip"
    );
    assert_eq!(
        MimeType::from_str("application/x-zip-compressed").to_string(),
        "application/zip"
    );
}

#[test]
fn unrecognized_strings_are_kept_verbatim() {
    let m = MimeType::from_str("application/custom");
    assert!(matches!(m, MimeType::Other(_)));
    assert_eq!(m.to_string(), "application/custom");
}

#[test]
fn from_extension_spot_checks() {
    assert_eq!(
        MimeType::from_extension("jpg").unwrap().to_string(),
        "image/jpeg"
    );
    assert_eq!(
        MimeType::from_extension("jpeg").unwrap().to_string(),
        "image/jpeg"
    );
    assert_eq!(
        MimeType::from_extension("html").unwrap().to_string(),
        "text/html"
    );
    assert_eq!(
        MimeType::from_extension("opus").unwrap().to_string(),
        "audio/opus"
    );
    assert_eq!(
        MimeType::from_extension("7z").unwrap().to_string(),
        "application/x-7z-compressed"
    );
    assert!(MimeType::from_extension("nope").is_none());
}

#[test]
fn extension_spot_checks() {
    assert_eq!(MimeType::from_str("image/jpeg").extension(), Some("jpg"));
    assert_eq!(MimeType::from_str("application/ogg").extension(), Some("ogx"));
    assert_eq!(MimeType::from_str("application/octet-stream").extension(), None);
    assert_eq!(MimeType::from_str("application/custom").extension(), None);
}

#[test]
fn is_text_spot_checks() {
    assert!(MimeType::from_str("text/html").is_text());
    assert!(MimeType::from_str("image/svg+xml").is_text());
    assert!(MimeType::from_str("application/x-sh").is_text());
    assert!(MimeType::from_str("text/calendar").is_text());
    assert!(!MimeType::from_str("image/png").is_text());
    assert!(!MimeType::from_str("application/zip").is_text());
    assert!(!MimeType::from_str("application/custom").is_text());
}

#[test]
fn from_header_discards_parameters() {
    assert_eq!(
        MimeType::from_header("text/html; charset=utf-8").to_string(),
        "text/html"
    );
    assert_eq!(
        MimeType::from_header("  image/png  ").to_string(),
        "image/png"
    );
    assert_eq!(
        MimeType::from_header("application/json junk").to_string(),
        "application/json"
    );
}
