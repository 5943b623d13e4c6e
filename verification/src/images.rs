//! Loading images for the editor and writing edited images back.
//!
//! A write goes only into the save directory, or over an image that the user opened
//! (that one file, not its directory). What is written is re-encoded to match the
//! target's extension, so that no file ends up with an extension that belies its
//! content; an extension that cannot be written is refused instead.
use vstd::prelude::*;
use crate::codec::{
    base64_decode, base64_decoded, base64_encode, base64_encoded, decode_dimensions,
    encode_jpeg, encode_rgba, format_writable, guessed_png, has_png_signature, image_dimensions,
    is_jpeg_extension, is_writable_extension, jpeg_encoding, jpeg_extension, png_reencoding,
    reencode_png, rgba_encoding, failure_text, EncodeFailure,
};
use crate::paths::{
    lower_extension, lower_extension_of, path_has_prefix, path_starts_with, paths_equal,
    same_path,
};
use crate::text::{chars_of, concat2, concat3, owned, push_str, str_eq, string_of};

verus! {

/// An image handed to the front end: its size, its PNG bytes in base64 and its path.
#[derive(Debug)]
pub struct ScreenshotResult {
    pub width: usize,
    pub height: usize,
    /// The image as PNG, in standard base64.
    pub data: String,
    /// The path of the saved (or opened) file.
    pub file_path: String,
}

/// Whether `r` failed with exactly the message `msg`.
pub open spec fn fails_with<T>(r: Result<T, String>, msg: Seq<char>) -> bool {
    match r {
        Err(e) => e@ == msg,
        Ok(_) => false,
    }
}

/// The quality of JPEG written back over an opened photo (`image` defaults to 75; edits
/// are saved over and over, so losses would pile up).
pub const JPEG_QUALITY: u8 = 92;

/// The bytes to write for an image, or the PNG to convert to HEIC first.
#[derive(Debug)]
pub enum ImageWrite {
    /// Write these bytes as they are.
    Bytes(Vec<u8>),
    /// Convert this PNG to HEIC (with the system's `sips`, on macOS only) and write that.
    ConvertToHeic(Vec<u8>),
}

/// The message for an extension that cannot be written.
pub open spec fn unsupported_format_message(ext: Seq<char>) -> Seq<char> {
    "Saving as '"@ + ext + "' is not supported (copy the image or save it as PNG instead)"@
}

/// The message of a failed re-encoding as `ext`: whether decoding failed, and the
/// error's text.
pub open spec fn encode_failure_message(failure: (bool, Seq<char>), ext: Seq<char>) -> Seq<char> {
    if failure.0 {
        "Failed to decode image: "@ + failure.1
    } else {
        "Failed to encode "@ + ext + ": "@ + failure.1
    }
}

/// Whether `r` is what re-encoding as `ext` gives: the bytes of `encoding`, or the
/// message of its failure.
pub open spec fn matches_encoding(
    r: Result<ImageWrite, String>,
    encoding: Result<Seq<u8>, (bool, Seq<char>)>,
    ext: Seq<char>,
) -> bool {
    match r {
        Ok(ImageWrite::Bytes(b)) => encoding == Ok::<Seq<u8>, (bool, Seq<char>)>(b@),
        Ok(ImageWrite::ConvertToHeic(_)) => false,
        Err(e) => encoding is Err && e@ == encode_failure_message(encoding->Err_0, ext),
    }
}

/// The refusal of HEIC / HEIF where the system cannot convert to it.
pub open spec fn heic_unsupported_message() -> Seq<char> {
    "Saving as HEIC / HEIF is only supported on macOS"@
}

/// The encoding of `png` that writing it to `target` asks for: the PNG itself for `.png`
/// or no extension, a conversion to HEIC for `.heic` / `.heif` (on macOS; refused
/// elsewhere), JPEG at `JPEG_QUALITY` for JPEG extensions, RGBA in the named format for
/// other writable ones, and a refusal for the rest.
pub open spec fn target_encoding_ok(
    target: Seq<char>,
    png: Seq<u8>,
    on_macos: bool,
    r: Result<ImageWrite, String>,
) -> bool {
    let ext = lower_extension(target);
    if ext == "png"@ || ext.len() == 0 {
        r matches Ok(ImageWrite::Bytes(b)) && b@ == png
    } else if ext == "heic"@ || ext == "heif"@ {
        if on_macos {
            r matches Ok(ImageWrite::ConvertToHeic(b)) && b@ == png
        } else {
            fails_with(r, heic_unsupported_message())
        }
    } else if !is_writable_extension(ext) {
        fails_with(r, unsupported_format_message(ext))
    } else if is_jpeg_extension(ext) {
        matches_encoding(r, jpeg_encoding(png, JPEG_QUALITY), ext)
    } else {
        matches_encoding(r, rgba_encoding(png, ext), ext)
    }
}

fn failure_message(f: EncodeFailure, ext: &str) -> (r: String)
    ensures
        r@ == encode_failure_message(failure_text(f), ext@),
{
    match f {
        EncodeFailure::Decode(e) => concat2("Failed to decode image: ", e.as_str()),
        EncodeFailure::Encode(e) => {
            let mut v = chars_of("Failed to encode ");
            push_str(&mut v, ext);
            push_str(&mut v, ": ");
            push_str(&mut v, e.as_str());
            let r = string_of(&v);
            assert(r@ =~= "Failed to encode "@ + ext@ + ": "@ + e@);
            r
        },
    }
}

/// Re-encodes the PNG bytes that the front end sends to match the extension of the file
/// they are written to (`on_macos`: running on macOS, where `sips` converts to HEIC).
pub fn encode_for_target_format(target: &str, png: Vec<u8>, on_macos: bool) -> (r: Result<
    ImageWrite,
    String,
>)
    ensures
        target_encoding_ok(target@, png@, on_macos, r),
{
    let ext = lower_extension_of(target);
    proof {
        reveal_strlit("");
        assert(ext@.len() == 0 ==> ext@ =~= ""@);
    }
    if str_eq(ext.as_str(), "png") || str_eq(ext.as_str(), "") {
        return Ok(ImageWrite::Bytes(png));
    }
    if str_eq(ext.as_str(), "heic") || str_eq(ext.as_str(), "heif") {
        if on_macos {
            return Ok(ImageWrite::ConvertToHeic(png));
        }
        return Err(owned("Saving as HEIC / HEIF is only supported on macOS"));
    }
    if !format_writable(ext.as_str()) {
        let r = concat3(
            "Saving as '",
            ext.as_str(),
            "' is not supported (copy the image or save it as PNG instead)",
        );
        return Err(r);
    }
    if jpeg_extension(ext.as_str()) {
        match encode_jpeg(png.as_slice(), JPEG_QUALITY) {
            Ok(out) => Ok(ImageWrite::Bytes(out)),
            Err(f) => Err(failure_message(f, ext.as_str())),
        }
    } else {
        match encode_rgba(png.as_slice(), ext.as_str()) {
            Ok(out) => Ok(ImageWrite::Bytes(out)),
            Err(f) => Err(failure_message(f, ext.as_str())),
        }
    }
}

/// Whether a (resolved) target may be written: it lies in the (resolved) save
/// directory, or it is one of the images that the user opened.
pub open spec fn write_allowed(save_dir: Seq<char>, opened: Seq<Seq<char>>, target: Seq<char>) -> bool {
    path_has_prefix(target, save_dir) || exists|i: int| 0 <= i < opened.len() && paths_equal(opened[i], target)
}

/// An image that the user opened may be written over, wherever it lies.
pub proof fn law_opened_images_may_be_written(
    save_dir: Seq<char>,
    opened: Seq<Seq<char>>,
    target: Seq<char>,
)
    requires
        opened.contains(target),
    ensures
        write_allowed(save_dir, opened, target),
{
}

/// Decides whether a (resolved) target may be written.
pub fn may_write(save_dir: &str, opened: &Vec<String>, target: &str) -> (r: bool)
    ensures
        r == write_allowed(save_dir@, opened.deep_view(), target@),
{
    if path_starts_with(target, save_dir) {
        return true;
    }
    let mut i: usize = 0;
    while i < opened.len()
        invariant
            i <= opened.len(),
            forall|j: int| 0 <= j < i ==> !paths_equal(opened.deep_view()[j], target@),
        decreases opened.len() - i,
    {
        if same_path(opened[i].as_str(), target) {
            assert(paths_equal(opened.deep_view()[i as int], target@));
            return true;
        }
        i = i + 1;
    }
    false
}

/// The message for a target outside the save directory.
pub open spec fn outside_message(target: Seq<char>, save_dir: Seq<char>) -> Seq<char> {
    "Path '"@ + target + "' is outside the save directory '"@ + save_dir + "'"@
}

/// Decides what to write for an edited image sent as base64 PNG: refused outside the
/// save directory (unless it is an opened image), refused when the data is not base64,
/// and otherwise re-encoded for the target's extension. All paths are resolved already.
pub fn prepare_image_write(
    save_dir: &str,
    opened: &Vec<String>,
    target: &str,
    data_base64: &str,
    on_macos: bool,
) -> (r: Result<ImageWrite, String>)
    ensures
        !write_allowed(save_dir@, opened.deep_view(), target@) ==> fails_with(
            r,
            outside_message(target@, save_dir@),
        ),
        write_allowed(save_dir@, opened.deep_view(), target@) && base64_decoded(data_base64@)
            is Err ==> fails_with(r, "Failed to decode base64: "@ + base64_decoded(data_base64@)->Err_0),
        write_allowed(save_dir@, opened.deep_view(), target@) && base64_decoded(data_base64@)
            is Ok ==> target_encoding_ok(target@, base64_decoded(data_base64@)->Ok_0, on_macos, r),
{
    if !may_write(save_dir, opened, target) {
        let mut v = chars_of("Path '");
        push_str(&mut v, target);
        push_str(&mut v, "' is outside the save directory '");
        push_str(&mut v, save_dir);
        push_str(&mut v, "'");
        let e = string_of(&v);
        assert(e@ =~= outside_message(target@, save_dir@));
        return Err(e);
    }
    let bytes = match base64_decode(data_base64) {
        Ok(b) => b,
        Err(e) => {
            return Err(concat2("Failed to decode base64: ", e.as_str()));
        },
    };
    encode_for_target_format(target, bytes, on_macos)
}

/// Decodes a pasted image sent as base64, to be written as it is.
pub fn pasted_image_bytes(data_base64: &str) -> (r: Result<Vec<u8>, String>)
    ensures
        match r {
            Ok(b) => base64_decoded(data_base64@) == Ok::<Seq<u8>, Seq<char>>(b@),
            Err(e) => base64_decoded(data_base64@) is Err && e@ == "Failed to decode base64: "@
                + base64_decoded(data_base64@)->Err_0,
        },
{
    match base64_decode(data_base64) {
        Ok(b) => Ok(b),
        Err(e) => Err(concat2("Failed to decode base64: ", e.as_str())),
    }
}

/// Decodes a capture sent as base64 for copying it as an image.
pub fn capture_png_bytes(data_base64: &str) -> (r: Result<Vec<u8>, String>)
    ensures
        match r {
            Ok(b) => base64_decoded(data_base64@) == Ok::<Seq<u8>, Seq<char>>(b@),
            Err(e) => base64_decoded(data_base64@) is Err && e@ == "Failed to copy the image: "@
                + base64_decoded(data_base64@)->Err_0,
        },
{
    match base64_decode(data_base64) {
        Ok(b) => Ok(b),
        Err(e) => Err(concat2("Failed to copy the image: ", e.as_str())),
    }
}

/// Whether the path's extension, in lower case, is `heic` or `heif`: such images are
/// converted to PNG by the system before they are opened.
pub open spec fn is_heic_path(path: Seq<char>) -> bool {
    lower_extension(path) == "heic"@ || lower_extension(path) == "heif"@
}

/// Whether the path names a HEIC / HEIF image.
pub fn heic_path(path: &str) -> (r: bool)
    ensures
        r == is_heic_path(path@),
{
    let ext = lower_extension_of(path);
    str_eq(ext.as_str(), "heic") || str_eq(ext.as_str(), "heif")
}

/// Whether `r` is the result for an image of `w` x `h` pixels at `file_path` whose PNG
/// bytes are `png`.
pub open spec fn is_image_result(
    r: Result<ScreenshotResult, String>,
    w: u32,
    h: u32,
    file_path: Seq<char>,
    png: Seq<u8>,
) -> bool {
    match r {
        Ok(res) => res.width == w && res.height == h && res.file_path@ == file_path && res.data@
            == base64_encoded(png),
        Err(_) => false,
    }
}

/// Builds the result for an opened image from the file's bytes: its size as decoded,
/// its bytes as they are when they are PNG already, re-encoded as PNG otherwise.
pub fn image_result_from_bytes(file_path: String, img_data: Vec<u8>) -> (r: Result<
    ScreenshotResult,
    String,
>)
    ensures
        match image_dimensions(img_data@) {
            Err(t) => fails_with(r, "Failed to decode image: "@ + t),
            Ok((w, h)) => if has_png_signature(img_data@) {
                is_image_result(r, w, h, file_path@, img_data@)
            } else {
                match png_reencoding(img_data@) {
                    Err(t) => fails_with(r, "Failed to re-encode as PNG: "@ + t),
                    Ok(png) => is_image_result(r, w, h, file_path@, png),
                }
            },
        },
{
    let (width, height) = match decode_dimensions(img_data.as_slice()) {
        Ok(size) => size,
        Err(e) => {
            return Err(concat2("Failed to decode image: ", e.as_str()));
        },
    };
    let png = if guessed_png(img_data.as_slice()) {
        img_data
    } else {
        match reencode_png(img_data.as_slice()) {
            Ok(p) => p,
            Err(e) => {
                return Err(concat2("Failed to re-encode as PNG: ", e.as_str()));
            },
        }
    };
    let data = base64_encode(png.as_slice());
    Ok(ScreenshotResult { width: width as usize, height: height as usize, data, file_path })
}

/// Builds the result for a HEIC / HEIF image that the system converted to PNG.
pub fn heic_result(file_path: String, png_data: &Vec<u8>, width: u32, height: u32) -> (r:
    ScreenshotResult)
    ensures
        r.width == width,
        r.height == height,
        r.data@ == base64_encoded(png_data@),
        r.file_path@ == file_path@,
{
    ScreenshotResult {
        width: width as usize,
        height: height as usize,
        data: base64_encode(png_data.as_slice()),
        file_path,
    }
}

/// The size of a region that `screencapture` wrote, before its text is recognised.
pub fn captured_image_size(png: &[u8]) -> (r: Result<(u32, u32), String>)
    ensures
        match image_dimensions(png@) {
            Ok(size) => r == Ok::<(u32, u32), String>(size),
            Err(t) => fails_with(r, "Failed to decode image: "@ + t),
        },
{
    match decode_dimensions(png) {
        Ok(size) => Ok(size),
        Err(e) => Err(concat2("Failed to decode image: ", e.as_str())),
    }
}

/// The size of the PNG that the system converted a HEIC / HEIF image to.
pub fn converted_png_size(png: &[u8]) -> (r: Result<(u32, u32), String>)
    ensures
        match image_dimensions(png@) {
            Ok(size) => r == Ok::<(u32, u32), String>(size),
            Err(t) => fails_with(r, "Failed to decode converted PNG: "@ + t),
        },
{
    match decode_dimensions(png) {
        Ok(size) => Ok(size),
        Err(e) => Err(concat2("Failed to decode converted PNG: ", e.as_str())),
    }
}

/// Decodes an image sent as base64 for text recognition, with its size.
pub fn ocr_input(data_base64: &str) -> (r: Result<(Vec<u8>, u32, u32), String>)
    ensures
        match base64_decoded(data_base64@) {
            Err(t) => fails_with(r, "Failed to decode base64: "@ + t),
            Ok(png) => match image_dimensions(png) {
                Err(t) => fails_with(r, "Failed to decode image: "@ + t),
                Ok((w, h)) => r matches Ok((p, rw, rh)) && p@ == png && rw == w && rh == h,
            },
        },
{
    let png = match base64_decode(data_base64) {
        Ok(b) => b,
        Err(e) => {
            return Err(concat2("Failed to decode base64: ", e.as_str()));
        },
    };
    match decode_dimensions(png.as_slice()) {
        Ok((w, h)) => Ok((png, w, h)),
        Err(e) => Err(concat2("Failed to decode image: ", e.as_str())),
    }
}

} // verus!
