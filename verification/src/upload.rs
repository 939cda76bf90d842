//! Preparing an image for upload: its content type, and the JPEG quality
//! search that brings a large image under the upload limit.
use vstd::prelude::*;
use crate::text::{self, owned, push_u64, starts_with_str};
use crate::string_map::StringMap;

verus! {

/// The content type that `mime_guess` gives `path`
/// (`from_path(path).first_or_octet_stream().to_string()`).
pub uninterp spec fn guessed_mime(path: Seq<char>) -> Seq<char>;

/// Calls `mime_guess::from_path(path).first_or_octet_stream()` and renders
/// the result. The contract claims only that the result is a function of
/// the path, named `guessed_mime`; `mime_guess` reads the extension only.
#[verifier::external_body]
fn mime_of_path(path: &str) -> (r: String)
    ensures
        r@ == guessed_mime(path@),
{
    mime_guess::from_path(path).first_or_octet_stream().to_string()
}

/// The content type a media file is uploaded with: the one guessed from
/// its path.
pub fn media_mime(path: &str) -> (r: String)
    ensures
        r@ == guessed_mime(path@),
{
    mime_of_path(path)
}

/// The content type an image is uploaded with: the guessed type when it is
/// an image type, else `image/jpeg`.
pub open spec fn upload_mime_of(path: Seq<char>) -> Seq<char> {
    if text::starts_with(guessed_mime(path), "image/"@) {
        guessed_mime(path)
    } else {
        "image/jpeg"@
    }
}

/// The content type an image is uploaded with.
pub fn upload_mime(path: &str) -> (r: String)
    ensures
        r@ == upload_mime_of(path@),
{
    let m = mime_of_path(path);
    if starts_with_str(m.as_str(), "image/") {
        m
    } else {
        owned("image/jpeg")
    }
}

/// The largest image uploaded as it is: 10 MiB.
pub open spec fn max_upload_bytes() -> nat {
    10 * 1024 * 1024
}

/// Whether a file of `size` bytes must be compressed before upload.
pub fn needs_compression(size: u64) -> (b: bool)
    ensures
        b == (size > max_upload_bytes()),
{
    size > 10 * 1024 * 1024
}

/// The JPEG encoding of an RGB image (`width` x `height`, three bytes a
/// pixel, row by row) at a quality, as the `image` crate produces it, or
/// the text of the encoder's error.
pub uninterp spec fn jpeg_encoding(width: u32, height: u32, rgb: Seq<u8>, quality: u8) -> Result<
    Seq<u8>,
    Seq<char>,
>;

/// Encodes an RGB image as JPEG with `image::RgbImage::write_with_encoder`
/// and `image::codecs::jpeg::JpegEncoder::new_with_quality`. The contract
/// claims only that the result is a function of the arguments, named
/// `jpeg_encoding`; the buffer must hold exactly the image's pixels.
#[verifier::external_body]
fn encode_jpeg(width: u32, height: u32, rgb: &[u8], quality: u8) -> (r: Result<Vec<u8>, String>)
    requires
        rgb@.len() == width as int * height as int * 3,
    ensures
        match r {
            Ok(d) => jpeg_encoding(width, height, rgb@, quality) == Ok::<_, Seq<char>>(d@),
            Err(e) => jpeg_encoding(width, height, rgb@, quality) == Err::<Seq<u8>, _>(e@),
        },
{
    let img = match image::RgbImage::from_raw(width, height, rgb.to_vec()) {
        Some(img) => img,
        None => return Err(String::new()),
    };
    let mut buf = std::io::Cursor::new(Vec::new());
    let encoder = image::codecs::jpeg::JpegEncoder::new_with_quality(&mut buf, quality);
    match img.write_with_encoder(encoder) {
        Ok(()) => Ok(buf.into_inner()),
        Err(e) => Err(e.to_string()),
    }
}

/// The image that a file holds, decoded in the format its path's extension
/// names and converted to 8-bit RGB (width, height, pixels), as the `image`
/// crate does it, or the text of the decoder's error.
pub uninterp spec fn decoded_rgb8(path: Seq<char>, file: Seq<u8>) -> Result<(u32, u32, Seq<u8>), Seq<char>>;

/// Decodes an image file with `image::ImageFormat::from_path` and
/// `image::load_from_memory_with_format` (the format `image::open` takes
/// from the extension) and converts it with `to_rgb8`. The contract claims
/// that the result is a function of the arguments, named `decoded_rgb8`, and
/// that the buffer holds exactly the pixels, three bytes each.
#[verifier::external_body]
fn decode_rgb8(path: &str, file: &[u8]) -> (r: Result<(u32, u32, Vec<u8>), String>)
    ensures
        match r {
            Ok((w, h, px)) => decoded_rgb8(path@, file@) == Ok::<_, Seq<char>>((w, h, px@))
                && px@.len() == w as int * h as int * 3,
            Err(e) => decoded_rgb8(path@, file@) == Err::<(u32, u32, Seq<u8>), _>(e@),
        },
{
    let format = image::ImageFormat::from_path(path).map_err(|e| e.to_string())?;
    let img = image::load_from_memory_with_format(file, format).map_err(|e| e.to_string())?.to_rgb8();
    Ok((img.width(), img.height(), img.into_raw()))
}

/// The image that a file holds, decoded as `decoded_rgb8` does, resized at
/// its own colour depth with `image::DynamicImage::resize` (Lanczos3) to fit
/// `max_width` x `max_height` with its aspect ratio kept, then converted to
/// 8-bit RGB; or the text of the decoder's error.
pub uninterp spec fn resized_rgb8(path: Seq<char>, file: Seq<u8>, max_width: u32, max_height: u32) -> Result<
    (u32, u32, Seq<u8>),
    Seq<char>,
>;

/// Decodes an image file as `decode_rgb8` does, resizes it with
/// `image::DynamicImage::resize` (Lanczos3) and converts the result with
/// `to_rgb8`. The contract claims that the result is a function of the
/// arguments, named `resized_rgb8`, and that the buffer holds exactly the
/// pixels, three bytes each, as an `RgbImage` always does.
#[verifier::external_body]
fn resize_rgb8(path: &str, file: &[u8], max_width: u32, max_height: u32) -> (r: Result<(u32, u32, Vec<u8>), String>)
    ensures
        match r {
            Ok((w, h, px)) => resized_rgb8(path@, file@, max_width, max_height) == Ok::<_, Seq<char>>(
                (w, h, px@),
            ) && px@.len() == w as int * h as int * 3,
            Err(e) => resized_rgb8(path@, file@, max_width, max_height) == Err::<(u32, u32, Seq<u8>), _>(e@),
        },
{
    let format = image::ImageFormat::from_path(path).map_err(|e| e.to_string())?;
    let img = image::load_from_memory_with_format(file, format).map_err(|e| e.to_string())?;
    let small = img.resize(max_width, max_height, image::imageops::FilterType::Lanczos3).to_rgb8();
    Ok((small.width(), small.height(), small.into_raw()))
}

/// The quality of the `k`-th try: 95, 90, ..., down to 10.
pub open spec fn quality_of_try(k: nat) -> u8 {
    (95 - 5 * k) as u8
}

/// The number of qualities tried.
pub open spec fn quality_tries() -> nat {
    18
}

/// The first encoding, from try `k` on, that fits the upload limit.
pub open spec fn first_fitting_jpeg(width: u32, height: u32, rgb: Seq<u8>, k: nat) -> Option<
    Seq<u8>,
>
    decreases quality_tries() - k,
{
    if k >= quality_tries() {
        None
    } else {
        match jpeg_encoding(width, height, rgb, quality_of_try(k)) {
            Ok(d) => if d.len() <= max_upload_bytes() {
                Some(d)
            } else {
                first_fitting_jpeg(width, height, rgb, k + 1)
            },
            Err(_) => first_fitting_jpeg(width, height, rgb, k + 1),
        }
    }
}

/// Re-encodes an image as JPEG at falling quality (95, 90, ..., 10) and
/// returns the first encoding of at most 10 MiB, if one fits.
pub fn compress_to_fit(width: u32, height: u32, rgb: &[u8]) -> (r: Option<Vec<u8>>)
    requires
        rgb@.len() == width as int * height as int * 3,
    ensures
        match r {
            Some(d) => first_fitting_jpeg(width, height, rgb@, 0) == Some(d@) && d@.len()
                <= max_upload_bytes(),
            None => first_fitting_jpeg(width, height, rgb@, 0) is None,
        },
{
    let mut quality: u8 = 95;
    let ghost mut k: nat = 0;
    while quality >= 10
        invariant
            k <= quality_tries(),
            rgb@.len() == width as int * height as int * 3,
            quality as int == 95 - 5 * k,
            first_fitting_jpeg(width, height, rgb@, 0) == first_fitting_jpeg(width, height, rgb@, k),
        decreases quality,
    {
        match encode_jpeg(width, height, rgb, quality) {
            Ok(d) => {
                if d.len() <= 10 * 1024 * 1024 {
                    return Some(d);
                }
            },
            Err(_) => {},
        }
        quality = quality - 5;
        proof {
            k = k + 1;
        }
    }
    None
}

/// The bounds that an image is resized to when no quality brings it under
/// the upload limit, and the quality it is then encoded at.
pub open spec fn fallback_width() -> u32 {
    1920
}

pub open spec fn fallback_height() -> u32 {
    1080
}

pub open spec fn fallback_quality() -> u8 {
    85
}

/// What is uploaded for an image file: its bytes as they are, with their
/// guessed content type, when the file is at most 10 MiB; else the image in
/// 8-bit RGB JPEG-encoded at the first quality that fits, at its own size;
/// else the image resized at its own depth to fit 1920x1080, converted and
/// encoded at quality 85, whatever its size. With the bytes go the width
/// and height; a file that cannot be decoded is refused first.
pub open spec fn image_to_upload(path: Seq<char>, file: Seq<u8>) -> Result<(Seq<u8>, u32, u32, Seq<char>), Seq<char>> {
    match decoded_rgb8(path, file) {
        Err(e) => Err("Cannot read image: "@ + e),
        Ok((width, height, rgb)) => if file.len() <= max_upload_bytes() {
            Ok((file, width, height, upload_mime_of(path)))
        } else {
            match first_fitting_jpeg(width, height, rgb, 0) {
                Some(d) => Ok((d, width, height, "image/jpeg"@)),
                None => match resized_rgb8(path, file, fallback_width(), fallback_height()) {
                    Err(e) => Err("Cannot read image: "@ + e),
                    Ok((w, h, small)) => match jpeg_encoding(w, h, small, fallback_quality()) {
                        Ok(d) => Ok((d, w, h, "image/jpeg"@)),
                        Err(e) => Err("Failed to compress image: "@ + e),
                    },
                },
            }
        },
    }
}

fn prefixed(prefix: &str, e: &str) -> (r: String)
    ensures
        r@ == prefix@ + e@,
{
    let mut m = String::new();
    m.append(prefix);
    m.append(e);
    m
}

/// The bytes, width, height and content type to upload for an image file,
/// or the message of the failure.
pub fn compress_image_if_needed(path: &str, file: Vec<u8>) -> (r: Result<(Vec<u8>, u32, u32, String), String>)
    ensures
        match r {
            Ok((d, w, h, m)) => image_to_upload(path@, file@) == Ok::<_, Seq<char>>((d@, w, h, m@)),
            Err(m) => image_to_upload(path@, file@) == Err::<(Seq<u8>, u32, u32, Seq<char>), _>(m@),
        },
{
    let (width, height, rgb) = match decode_rgb8(path, file.as_slice()) {
        Ok(x) => x,
        Err(e) => return Err(prefixed("Cannot read image: ", e.as_str())),
    };
    if !needs_compression(file.len() as u64) {
        let mime = upload_mime(path);
        return Ok((file, width, height, mime));
    }
    match compress_to_fit(width, height, rgb.as_slice()) {
        Some(d) => Ok((d, width, height, owned("image/jpeg"))),
        None => {
            let (w, h, small) = match resize_rgb8(path, file.as_slice(), 1920, 1080) {
                Ok(x) => x,
                Err(e) => return Err(prefixed("Cannot read image: ", e.as_str())),
            };
            match encode_jpeg(w, h, small.as_slice(), 85) {
                Ok(d) => Ok((d, w, h, owned("image/jpeg"))),
                Err(e) => Err(prefixed("Failed to compress image: ", e.as_str())),
            }
        },
    }
}

/// The headers of the PUT that uploads an image: its content type and its
/// width and height as object metadata.
pub open spec fn image_put_headers_of(mime: Seq<char>, width: u32, height: u32) -> Map<
    Seq<char>,
    Seq<char>,
> {
    map![
        "Content-Type"@ => mime,
        "x-amz-meta-image-width"@ => text::decimal(width as nat),
        "x-amz-meta-image-height"@ => text::decimal(height as nat),
    ]
}

/// The headers of the PUT that uploads an image.
pub fn image_put_headers(mime: &str, width: u32, height: u32) -> (r: StringMap)
    ensures
        r.wf(),
        r@ == image_put_headers_of(mime@, width, height),
{
    let mut m = StringMap::new();
    m.insert(owned("Content-Type"), owned(mime));
    let mut ws = String::new();
    push_u64(&mut ws, width as u64);
    m.insert(owned("x-amz-meta-image-width"), ws);
    let mut hs = String::new();
    push_u64(&mut hs, height as u64);
    m.insert(owned("x-amz-meta-image-height"), hs);
    proof {
        reveal_strlit("Content-Type");
        reveal_strlit("x-amz-meta-image-width");
        reveal_strlit("x-amz-meta-image-height");
        assert("Content-Type"@[0] != "x-amz-meta-image-width"@[0]);
        assert("Content-Type"@[0] != "x-amz-meta-image-height"@[0]);
        assert("x-amz-meta-image-width"@[17] != "x-amz-meta-image-height"@[17]);
    }
    assert(m@ =~= image_put_headers_of(mime@, width, height));
    m
}

} // verus!
