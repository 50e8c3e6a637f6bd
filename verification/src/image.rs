//! The one-time content transcode for fetched images: a WebP payload is
//! converted to PNG before it reaches the cache, so cached bytes are always
//! in renderable form; any other payload is kept as it came.
use vstd::prelude::*;

verus! {

/// Why an image could not be brought into renderable form.
#[derive(Debug, Clone, Copy, PartialEq, Eq, Structural)]
pub enum ImageError {
    /// The payload claimed to be WebP and did not decode.
    WebpDecode,
    /// The decoded pixels could not be encoded as PNG.
    PngEncode,
}

/// What decoding a WebP payload yields: width, height and RGBA rows — a
/// function of the bytes alone — or nothing when the bytes are not WebP.
pub uninterp spec fn webp_rgba_of(data: Seq<u8>) -> Option<(u32, u32, Seq<u8>)>;

/// Relies on `libwebp::WebPDecodeRGBA`: decodes a WebP image into RGBA rows
/// of `width * height * 4` bytes, deciding by the input bytes alone.
#[verifier::external_body]
fn webp_decode_rgba(data: &Vec<u8>) -> (r: Result<(u32, u32, Vec<u8>), ImageError>)
    ensures
        match r {
            Ok(p) => webp_rgba_of(data@) == Some((p.0, p.1, p.2@)) && p.2@.len() == (p.0 as int) * (
            p.1 as int) * 4,
            Err(e) => webp_rgba_of(data@) is None && e == ImageError::WebpDecode,
        },
{
    match libwebp::WebPDecodeRGBA(data.as_slice()) {
        Ok((w, h, buf)) => Ok((w, h, buf.to_vec())),
        Err(_) => Err(ImageError::WebpDecode),
    }
}

/// What encoding RGBA rows as PNG yields: a function of the pixels and the
/// dimensions alone, or nothing when they do not form an image.
pub uninterp spec fn png_rgba_of(pixels: Seq<u8>, width: int, height: int) -> Option<Seq<u8>>;

/// Relies on `lodepng::encode_memory` with RGBA color and bit depth 8: the
/// PNG encoding is a function of its arguments alone. The pixel buffer must
/// be exactly `width * height * 4` bytes: on a mismatched buffer the call
/// asserts instead of returning in builds with debug assertions.
#[verifier::external_body]
fn png_encode_rgba(pixels: &Vec<u8>, width: u32, height: u32) -> (r: Result<Vec<u8>, ImageError>)
    requires
        pixels@.len() == (width as int) * (height as int) * 4,
    ensures
        match r {
            Ok(v) => png_rgba_of(pixels@, width as int, height as int) == Some(v@),
            Err(e) => png_rgba_of(pixels@, width as int, height as int) is None && e
                == ImageError::PngEncode,
        },
{
    match lodepng::encode_memory(
        pixels.as_slice(),
        width as usize,
        height as usize,
        lodepng::ColorType::RGBA,
        8,
    ) {
        Ok(v) => Ok(v),
        Err(_) => Err(ImageError::PngEncode),
    }
}

/// What a fetched payload becomes before it reaches the cache, given the
/// response's content type.
pub open spec fn spec_transcode(content_type: Seq<char>, data: Seq<u8>) -> Result<
    Seq<u8>,
    ImageError,
> {
    if content_type == "image/webp"@ {
        match webp_rgba_of(data) {
            Some(p) => match png_rgba_of(p.2, p.0 as int, p.1 as int) {
                Some(v) => Ok(v),
                None => Err(ImageError::PngEncode),
            },
            None => Err(ImageError::WebpDecode),
        }
    } else {
        Ok(data)
    }
}

/// Bring a fetched image payload into renderable form: WebP is transcoded
/// to PNG, anything else passes through unchanged.
pub fn transcode_image(content_type: &String, data: Vec<u8>) -> (r: Result<Vec<u8>, ImageError>)
    ensures
        match r {
            Ok(v) => spec_transcode(content_type@, data@) == Ok::<Seq<u8>, ImageError>(v@),
            Err(e) => spec_transcode(content_type@, data@) == Err::<Seq<u8>, ImageError>(e),
        },
{
    let webp = String::from_str("image/webp");
    if content_type.eq(&webp) {
        match webp_decode_rgba(&data) {
            Ok(p) => png_encode_rgba(&p.2, p.0, p.1),
            Err(e) => Err(e),
        }
    } else {
        Ok(data)
    }
}

} // verus!
