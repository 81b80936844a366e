use image::{DynamicImage, ImageFormat, RgbaImage};
use servable::transform::SizedImage;
use servable::mime::MimeType;
use servable::transform::{TransformBytesError, TransformerChain};
use std::io::Cursor;

fn png_bytes(w: u32, h: u32) -> Vec<u8> {
    let img = DynamicImage::ImageRgba8(RgbaImage::from_pixel(
        w,
        h,
        image::Rgba([10, 20, 30, 255]),
    ));
    let mut out = Cursor::new(Vec::new());
    img.write_to(&mut out, ImageFormat::Png).unwrap();
    out.into_inner()
}

fn decoded_dims(bytes: &[u8]) -> (u32, u32) {
    let img = image::load_from_memory(bytes).unwrap();
    (img.width(), img.height())
}

#[test]
fn empty_chain_returns_the_original_bytes() {
    let bytes = png_bytes(200, 100);
    let chain = TransformerChain::from_str("").unwrap();
    let (mime, out) = chain
        .transform_bytes(&bytes, Some(&MimeType::Png))
        .unwrap();
    assert_eq!(out, bytes);
    assert_eq!(mime.to_string(), "image/png");
}

#[test]
fn empty_chain_with_sniffed_format_returns_the_original_bytes() {
    let bytes = png_bytes(16, 16);
    let chain = TransformerChain::from_str("").unwrap();
    let (mime, out) = chain.transform_bytes(&bytes, None).unwrap();
    assert_eq!(out, bytes);
    assert_eq!(mime.to_string(), "image/png");
}

#[test]
fn maxdim_resizes_within_bounds() {
    let bytes = png_bytes(200, 100);
    let chain = TransformerChain::from_str("maxdim(50,100)").unwrap();
    let (mime, out) = chain
        .transform_bytes(&bytes, Some(&MimeType::Png))
        .unwrap();
    assert_eq!(mime.to_string(), "image/png");
    assert_eq!(decoded_dims(&out), (50, 25));
}

#[test]
fn crop_produces_the_requested_region() {
    let bytes = png_bytes(200, 100);
    let chain = TransformerChain::from_str("crop(50,50,c)").unwrap();
    let (_mime, out) = chain
        .transform_bytes(&bytes, Some(&MimeType::Png))
        .unwrap();
    assert_eq!(decoded_dims(&out), (50, 50));
}

#[test]
fn format_step_transcodes() {
    let bytes = png_bytes(20, 10);
    let chain = TransformerChain::from_str("format(bmp)").unwrap();
    let (mime, out) = chain
        .transform_bytes(&bytes, Some(&MimeType::Png))
        .unwrap();
    assert_eq!(mime.to_string(), "image/bmp");
    assert_eq!(image::guess_format(&out).unwrap(), ImageFormat::Bmp);
}

#[test]
fn non_image_mime_is_rejected_distinctly() {
    let chain = TransformerChain::from_str("maxdim(10,10)").unwrap();
    let err = chain
        .transform_bytes(b"hello", Some(&MimeType::Text))
        .unwrap_err();
    match err {
        TransformBytesError::NotAnImage(s) => assert_eq!(s, "text/plain"),
        TransformBytesError::ImageError(_) => panic!("expected NotAnImage"),
    }
}

#[test]
fn corrupt_bytes_are_a_codec_error() {
    let chain = TransformerChain::from_str("maxdim(10,10)").unwrap();
    let err = chain
        .transform_bytes(b"not a png", Some(&MimeType::Png))
        .unwrap_err();
    assert!(matches!(err, TransformBytesError::ImageError(_)));
}

#[test]
fn output_mime_follows_the_terminal_format_step() {
    let chain = TransformerChain::from_str("maxdim(10,10);format(gif)").unwrap();
    let out = chain.output_mime(&MimeType::Png).unwrap();
    assert_eq!(out.to_string(), "image/gif");

    let chain = TransformerChain::from_str("maxdim(10,10)").unwrap();
    let out = chain.output_mime(&MimeType::Png).unwrap();
    assert_eq!(out.to_string(), "image/png");

    let chain = TransformerChain::from_str("maxdim(10,10)").unwrap();
    assert!(chain.output_mime(&MimeType::Text).is_none());
}

#[test]
fn format_extension_is_case_insensitive() {
    let bytes = png_bytes(8, 8);
    let chain = TransformerChain::from_str("format(BMP)").unwrap();
    let (mime, out) = chain
        .transform_bytes(&bytes, Some(&MimeType::Png))
        .unwrap();
    assert_eq!(mime.to_string(), "image/bmp");
    assert_eq!(image::guess_format(&out).unwrap(), ImageFormat::Bmp);
}

#[test]
fn transform_image_applies_the_steps_in_order() {
    let img = SizedImage::new(DynamicImage::ImageRgba8(RgbaImage::from_pixel(
        200,
        100,
        image::Rgba([9, 9, 9, 255]),
    )));
    assert_eq!((img.width(), img.height()), (200, 100));
    let chain = TransformerChain::from_str("maxdim(50,100);crop(10,10,c)").unwrap();
    let out = chain.transform_image(img);
    assert_eq!((out.width(), out.height()), (10, 10));
}

#[test]
fn oversized_crop_is_clipped_to_the_image() {
    let img = SizedImage::new(DynamicImage::ImageRgba8(RgbaImage::from_pixel(
        200,
        100,
        image::Rgba([9, 9, 9, 255]),
    )));
    let chain = TransformerChain::from_str("crop(300,50,e)").unwrap();
    let out = chain.transform_image(img);
    assert_eq!((out.width(), out.height()), (200, 50));
}
