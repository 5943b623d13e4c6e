//! Image bytes: base64 text, PNG detection, decoding and re-encoding, through the
//! `base64` and `image` crates.
use vstd::prelude::*;
use crate::text::{chars_of, str_eq, string_of};
use base64::Engine;

verus! {

/// What standard base64 (with padding) makes of `text`: the bytes it decodes to, or the
/// text (`Display`) of the `DecodeError` that `base64` reports.
pub uninterp spec fn base64_decoded(text: Seq<char>) -> Result<Seq<u8>, Seq<char>>;

/// The standard base64 text (with padding) of `bytes`.
pub uninterp spec fn base64_encoded(bytes: Seq<u8>) -> Seq<char>;

/// `base64`'s `STANDARD.decode`, with the error written out as text.
///
/// Claims that the bytes, or the error's text, are `base64_decoded` of the text.
#[verifier::external_body]
pub fn base64_decode(text: &str) -> (r: Result<Vec<u8>, String>)
    ensures
        match r {
            Ok(bytes) => base64_decoded(text@) == Ok::<Seq<u8>, Seq<char>>(bytes@),
            Err(e) => base64_decoded(text@) == Err::<Seq<u8>, Seq<char>>(e@),
        },
{
    base64::engine::general_purpose::STANDARD.decode(text).map_err(|e| e.to_string())
}

/// `base64`'s `STANDARD.encode`. Claims that the result is `base64_encoded` of the bytes.
/// (The crate panics only when the encoded length overflows `usize`, which no slice,
/// of at most `isize::MAX` bytes, reaches.)
#[verifier::external_body]
pub fn base64_encode(bytes: &[u8]) -> (r: String)
    ensures
        r@ == base64_encoded(bytes@),
{
    base64::engine::general_purpose::STANDARD.encode(bytes)
}

/// The eight bytes that every PNG file begins with.
pub open spec fn png_signature() -> Seq<u8> {
    seq![0x89u8, 0x50u8, 0x4eu8, 0x47u8, 0x0du8, 0x0au8, 0x1au8, 0x0au8]
}

/// Whether `bytes` begins with the PNG signature.
pub open spec fn has_png_signature(bytes: Seq<u8>) -> bool {
    bytes.len() >= 8 && bytes.take(8) == png_signature()
}

/// `image::guess_format` recognising PNG. Claims what the crate's source shows: PNG is
/// the first entry of its table of magic bytes, so the guess is PNG exactly when the
/// bytes begin with the PNG signature.
#[verifier::external_body]
pub fn guessed_png(bytes: &[u8]) -> (r: bool)
    ensures
        r == has_png_signature(bytes@),
{
    matches!(image::guess_format(bytes), Ok(image::ImageFormat::Png))
}

/// What `image` makes of `bytes`: the width and height of the image they decode to, or
/// the text (`Display`) of the `ImageError` that decoding reports.
pub uninterp spec fn image_dimensions(bytes: Seq<u8>) -> Result<(u32, u32), Seq<char>>;

/// The PNG encoding, by `image`, of the image that `bytes` decode to, or the text of the
/// `ImageError` that decoding or encoding reports.
pub uninterp spec fn png_reencoding(bytes: Seq<u8>) -> Result<Seq<u8>, Seq<char>>;

/// `image::load_from_memory`, giving the image's `width()` and `height()`.
///
/// Claims that the size, or the error's text, are `image_dimensions` of the bytes.
#[verifier::external_body]
pub fn decode_dimensions(bytes: &[u8]) -> (r: Result<(u32, u32), String>)
    ensures
        match r {
            Ok(size) => image_dimensions(bytes@) == Ok::<(u32, u32), Seq<char>>(size),
            Err(e) => image_dimensions(bytes@) == Err::<(u32, u32), Seq<char>>(e@),
        },
{
    image::load_from_memory(bytes).map(|img| (img.width(), img.height())).map_err(|e| e.to_string())
}

/// `image`'s `DynamicImage::write_to` in PNG, of the image `load_from_memory` decodes.
///
/// Claims that the PNG bytes, or the error's text, are `png_reencoding` of the bytes.
#[verifier::external_body]
pub fn reencode_png(bytes: &[u8]) -> (r: Result<Vec<u8>, String>)
    ensures
        match r {
            Ok(png) => png_reencoding(bytes@) == Ok::<Seq<u8>, Seq<char>>(png@),
            Err(e) => png_reencoding(bytes@) == Err::<Seq<u8>, Seq<char>>(e@),
        },
{
    let img = image::load_from_memory(bytes).map_err(|e| e.to_string())?;
    let mut out = std::io::Cursor::new(Vec::new());
    img.write_to(&mut out, image::ImageFormat::Png).map_err(|e| e.to_string())?;
    Ok(out.into_inner())
}

/// `c` with ASCII upper-case letters made lower case.
pub open spec fn ascii_lower_char(c: char) -> char {
    if 'A' <= c <= 'Z' {
        ((c as u8) + 32) as char
    } else {
        c
    }
}

/// `s` with ASCII upper-case letters made lower case (`str::to_ascii_lowercase`).
pub open spec fn ascii_lower(s: Seq<char>) -> Seq<char> {
    s.map_values(|c: char| ascii_lower_char(c))
}

/// `str::to_ascii_lowercase`, written out.
pub fn to_ascii_lower(s: &str) -> (r: Vec<char>)
    ensures
        r@ == ascii_lower(s@),
{
    let v = chars_of(s);
    let mut r: Vec<char> = Vec::new();
    let mut i: usize = 0;
    while i < v.len()
        invariant
            i <= v.len(),
            v@ == s@,
            r@ == ascii_lower(s@).take(i as int),
        decreases v.len() - i,
    {
        let c = v[i];
        let d = if 'A' <= c && c <= 'Z' {
            ((c as u8) + 32) as char
        } else {
            c
        };
        r.push(d);
        assert(ascii_lower(s@).take(i + 1) =~= ascii_lower(s@).take(i as int).push(d));
        i = i + 1;
    }
    assert(ascii_lower(s@).take(v.len() as int) =~= ascii_lower(s@));
    r
}

proof fn lemma_ascii_lower_keeps_lower_case(s: Seq<char>)
    requires
        forall|i: int| 0 <= i < s.len() ==> !('A' <= #[trigger] s[i] <= 'Z'),
    ensures
        ascii_lower(s) == s,
{
    assert(ascii_lower(s) =~= s);
}

/// Whether `image`'s `ImageFormat::from_extension` maps the extension to JPEG.
pub open spec fn is_jpeg_extension(ext: Seq<char>) -> bool {
    let e = ascii_lower(ext);
    e == "jpg"@ || e == "jpeg"@ || e == "jfif"@
}

/// Whether `image`'s `ImageFormat::from_extension` maps the extension to a format that
/// this build can write (the `png`, `jpeg`, `gif`, `bmp`, `webp` and `tiff` encoders are
/// built; `avif`, `tga`, `dds`, `ico`, `hdr`, `exr`, `pnm`, `ff` and `qoi` are not).
pub open spec fn is_writable_extension(ext: Seq<char>) -> bool {
    let e = ascii_lower(ext);
    ||| is_jpeg_extension(ext)
    ||| e == "png"@
    ||| e == "apng"@
    ||| e == "gif"@
    ||| e == "webp"@
    ||| e == "tif"@
    ||| e == "tiff"@
    ||| e == "bmp"@
}

/// `image`'s `ImageFormat::from_extension(..).filter(ImageFormat::writing_enabled)`.
///
/// Claims what the crate's source shows for the encoders this build enables: the
/// extension, ASCII lower-cased, names PNG (`png`, `apng`), JPEG (`jpg`, `jpeg`, `jfif`),
/// GIF, WebP, TIFF (`tif`, `tiff`) or BMP. This holds for the `image` features that
/// Cargo.toml turns on; a build with more encoders would write more extensions.
#[verifier::external_body]
pub fn format_writable(ext: &str) -> (r: bool)
    ensures
        r == is_writable_extension(ext@),
{
    image::ImageFormat::from_extension(ext).filter(image::ImageFormat::writing_enabled).is_some()
}

/// Whether the extension names JPEG, as `image` reads extensions.
pub fn jpeg_extension(ext: &str) -> (r: bool)
    ensures
        r == is_jpeg_extension(ext@),
{
    let e = to_ascii_lower(ext);
    let s = string_of(&e);
    str_eq(s.as_str(), "jpg") || str_eq(s.as_str(), "jpeg") || str_eq(s.as_str(), "jfif")
}

/// Why re-encoding an image failed.
#[derive(Debug)]
pub enum EncodeFailure {
    /// The PNG bytes could not be decoded.
    Decode(String),
    /// The image could not be encoded in the target format.
    Encode(String),
}

/// The JPEG encoding at `quality`, by `image`, of the image that `png` decodes to (as
/// RGB, since JPEG has no alpha); or, when that fails, whether decoding (`true`) or
/// encoding (`false`) failed, with the text of the `ImageError`.
pub uninterp spec fn jpeg_encoding(png: Seq<u8>, quality: u8) -> Result<Seq<u8>, (bool, Seq<char>)>;

/// The encoding, by `image`, of the image that `png` decodes to (as RGBA) in the format
/// that the extension names; or, when that fails, whether decoding (`true`) or encoding
/// (`false`) failed, with the text of the `ImageError`.
pub uninterp spec fn rgba_encoding(png: Seq<u8>, ext: Seq<char>) -> Result<Seq<u8>, (bool, Seq<char>)>;

/// Whether decoding failed, and the error's text.
pub open spec fn failure_text(f: EncodeFailure) -> (bool, Seq<char>) {
    match f {
        EncodeFailure::Decode(t) => (true, t@),
        EncodeFailure::Encode(t) => (false, t@),
    }
}

/// `image::load_from_memory`, `to_rgb8` and `JpegEncoder::new_with_quality(..).encode_image`.
///
/// Claims that the bytes, or which step failed and the error's text, are
/// `jpeg_encoding` of the bytes and quality.
#[verifier::external_body]
pub fn encode_jpeg(png: &[u8], quality: u8) -> (r: Result<Vec<u8>, EncodeFailure>)
    ensures
        match r {
            Ok(out) => jpeg_encoding(png@, quality) == Ok::<Seq<u8>, (bool, Seq<char>)>(out@),
            Err(f) => jpeg_encoding(png@, quality) == Err::<Seq<u8>, (bool, Seq<char>)>(
                failure_text(f),
            ),
        },
{
    let img = image::load_from_memory(png).map_err(|e| EncodeFailure::Decode(e.to_string()))?;
    let mut out = std::io::Cursor::new(Vec::new());
    image::codecs::jpeg::JpegEncoder::new_with_quality(&mut out, quality)
        .encode_image(&image::DynamicImage::ImageRgb8(img.to_rgb8()))
        .map_err(|e| EncodeFailure::Encode(e.to_string()))?;
    Ok(out.into_inner())
}

/// `image::load_from_memory`, `to_rgba8` and `DynamicImage::write_to` in the format that
/// `ImageFormat::from_extension` gives for `ext` (which `requires` makes one that exists).
///
/// Claims that the bytes, or which step failed and the error's text, are
/// `rgba_encoding` of the bytes and extension.
#[verifier::external_body]
pub fn encode_rgba(png: &[u8], ext: &str) -> (r: Result<Vec<u8>, EncodeFailure>)
    requires
        is_writable_extension(ext@),
    ensures
        match r {
            Ok(out) => rgba_encoding(png@, ext@) == Ok::<Seq<u8>, (bool, Seq<char>)>(out@),
            Err(f) => rgba_encoding(png@, ext@) == Err::<Seq<u8>, (bool, Seq<char>)>(
                failure_text(f),
            ),
        },
{
    let format = image::ImageFormat::from_extension(ext).unwrap();
    let img = image::load_from_memory(png).map_err(|e| EncodeFailure::Decode(e.to_string()))?;
    let mut out = std::io::Cursor::new(Vec::new());
    image::DynamicImage::ImageRgba8(img.to_rgba8())
        .write_to(&mut out, format)
        .map_err(|e| EncodeFailure::Encode(e.to_string()))?;
    Ok(out.into_inner())
}


/// Every extension that FlashCap opens, except HEIC / HEIF (which the system converts),
/// names a format that this build can write: an image that can be opened can be saved.
pub proof fn law_every_openable_extension_is_writable(ext: Seq<char>)
    requires
        crate::args::is_supported_extension(ext),
        ext != "heic"@,
        ext != "heif"@,
    ensures
        is_writable_extension(ext),
{
    reveal_strlit("png");
    reveal_strlit("jpg");
    reveal_strlit("jpeg");
    reveal_strlit("gif");
    reveal_strlit("bmp");
    reveal_strlit("webp");
    reveal_strlit("tiff");
    reveal_strlit("tif");
    lemma_ascii_lower_keeps_lower_case(ext);
}

} // verus!
