use elysia::image::{transcode_image, ImageError};

#[test]
fn webp_payload_is_transcoded_to_png() {
    // A real 2x2 WebP, produced by the encoder of the same library the
    // decoder comes from.
    let pixels: Vec<u8> = vec![
        255, 0, 0, 255, 0, 255, 0, 255, 0, 0, 255, 255, 255, 255, 255, 255,
    ];
    let webp = libwebp::WebPEncodeLosslessRGBA(&pixels, 2, 2, 8).expect("encoding a 2x2 image");
    let webp_bytes: Vec<u8> = webp.to_vec();
    let out = transcode_image(&"image/webp".to_string(), webp_bytes.clone())
        .expect("a valid WebP must transcode");
    assert_ne!(out, webp_bytes);
    assert!(out.len() >= 8);
    assert_eq!(&out[0..8], &[137u8, 80, 78, 71, 13, 10, 26, 10]);
}

#[test]
fn undecodable_webp_is_an_error() {
    let r = transcode_image(&"image/webp".to_string(), b"definitely not webp".to_vec());
    assert_eq!(r, Err(ImageError::WebpDecode));
}

#[test]
fn other_content_types_pass_through_unchanged() {
    let bytes = b"\x89PNG already fine".to_vec();
    let r = transcode_image(&"image/png".to_string(), bytes.clone());
    assert_eq!(r, Ok(bytes));
    let bytes = b"anything".to_vec();
    let r = transcode_image(&String::new(), bytes.clone());
    assert_eq!(r, Ok(bytes));
}
