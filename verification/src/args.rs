//! Command-line arguments and URLs: which ask for a capture, and which name images to open.
use vstd::prelude::*;
use crate::paths::{file_extension, lowercased, path_extension, to_lowercase};
use crate::text::str_eq;

verus! {

/// The extensions (in lower case) of the images that FlashCap opens.
pub open spec fn is_supported_extension(ext: Seq<char>) -> bool {
    ||| ext == "png"@
    ||| ext == "jpg"@
    ||| ext == "jpeg"@
    ||| ext == "gif"@
    ||| ext == "bmp"@
    ||| ext == "webp"@
    ||| ext == "tiff"@
    ||| ext == "tif"@
    ||| ext == "heic"@
    ||| ext == "heif"@
}

/// The extensions that FlashCap opens, in the order in which they are listed.
pub open spec fn supported_extensions() -> Seq<Seq<char>> {
    seq![
        "png"@,
        "jpg"@,
        "jpeg"@,
        "gif"@,
        "bmp"@,
        "webp"@,
        "tiff"@,
        "tif"@,
        "heic"@,
        "heif"@,
    ]
}

/// The extensions that FlashCap opens.
pub fn supported_image_extensions() -> (r: Vec<&'static str>)
    ensures
        r.deep_view() == supported_extensions(),
{
    let r = vec!["png", "jpg", "jpeg", "gif", "bmp", "webp", "tiff", "tif", "heic", "heif"];
    assert(r.deep_view() =~= supported_extensions());
    r
}

/// Whether `ext` (already lower case) is one that FlashCap opens.
pub fn is_supported_extension_str(ext: &str) -> (r: bool)
    ensures
        r == is_supported_extension(ext@),
{
    str_eq(ext, "png") || str_eq(ext, "jpg") || str_eq(ext, "jpeg") || str_eq(ext, "gif")
        || str_eq(ext, "bmp") || str_eq(ext, "webp") || str_eq(ext, "tiff") || str_eq(ext, "tif")
        || str_eq(ext, "heic") || str_eq(ext, "heif")
}

/// Whether `path` names an image that FlashCap opens: its extension, in lower case,
/// is one of the supported ones.
pub open spec fn is_image_path(path: Seq<char>) -> bool {
    match path_extension(path) {
        Some(e) => is_supported_extension(lowercased(e)),
        None => false,
    }
}

/// Whether `path` has the extension of an image that FlashCap opens.
pub fn is_supported_image_path(path: &str) -> (r: bool)
    ensures
        r == is_image_path(path@),
{
    match file_extension(path) {
        Some(e) => {
            let lower = to_lowercase(e.as_str());
            is_supported_extension_str(lower.as_str())
        },
        None => false,
    }
}

/// Whether an argument on the command line is the `--capture` flag.
pub fn is_capture_arg(arg: &str) -> (r: bool)
    ensures
        r == (arg@ == "--capture"@),
{
    str_eq(arg, "--capture")
}

/// The scheme and the host of `s` read as a URL, as the `url` crate parses it;
/// `None` when it is not a URL.
pub uninterp spec fn url_scheme_host(s: Seq<char>) -> Option<(Seq<char>, Option<Seq<char>>)>;

/// The scheme and host of a parsed URL, as plain strings.
pub struct UrlParts {
    pub scheme: String,
    pub host: Option<String>,
}

impl UrlParts {
    pub open spec fn parts(&self) -> (Seq<char>, Option<Seq<char>>) {
        (self.scheme@, self.host.deep_view())
    }
}

/// The `url` crate's `Url::parse`, with the parsed URL's `scheme()` and `host_str()`.
///
/// Claims that the result is `url_scheme_host` of the text; the WHATWG parsing rules that
/// the crate follows are not restated.
#[verifier::external_body]
fn parse_url(s: &str) -> (r: Option<UrlParts>)
    ensures
        match r {
            Some(p) => url_scheme_host(s@) == Some(p.parts()),
            None => url_scheme_host(s@) is None,
        },
{
    url::Url::parse(s).ok().map(
        |u| UrlParts { scheme: u.scheme().to_string(), host: u.host_str().map(|h| h.to_string()) },
    )
}

/// Whether parsed URL parts are those of `flashcap://capture`.
pub open spec fn is_capture_url_parts(parts: Option<(Seq<char>, Option<Seq<char>>)>) -> bool {
    match parts {
        Some((scheme, Some(host))) => scheme == "flashcap"@ && host == "capture"@,
        _ => false,
    }
}

/// Whether `arg` is the URL `flashcap://capture` (scheme `flashcap`, host `capture`).
pub open spec fn is_capture_url_text(arg: Seq<char>) -> bool {
    is_capture_url_parts(url_scheme_host(arg))
}

/// Decides, from the parts of a parsed URL, whether it is `flashcap://capture`.
pub fn capture_url_from_parts(parts: &Option<UrlParts>) -> (r: bool)
    ensures
        r == is_capture_url_parts(
            match parts {
                Some(p) => Some(p.parts()),
                None => None,
            },
        ),
{
    match parts {
        Some(p) => match &p.host {
            Some(h) => str_eq(p.scheme.as_str(), "flashcap") && str_eq(h.as_str(), "capture"),
            None => false,
        },
        None => false,
    }
}

/// Whether an argument is the URL `flashcap://capture`. Such a URL does not start a
/// capture by itself: it only brings the window forward and highlights the button.
pub fn is_capture_url(arg: &str) -> (r: bool)
    ensures
        r == is_capture_url_text(arg@),
{
    let parts = parse_url(arg);
    capture_url_from_parts(&parts)
}

/// The arguments that name existing images, in order: `exists[i]` says whether
/// `args[i]` exists on disk.
pub open spec fn existing_images(args: Seq<Seq<char>>, exists: Seq<bool>) -> Seq<Seq<char>>
    decreases args.len(),
{
    if args.len() == 0 {
        seq![]
    } else {
        let rest = existing_images(args.drop_last(), exists.drop_last());
        if exists.last() && is_image_path(args.last()) {
            rest.push(args.last())
        } else {
            rest
        }
    }
}

/// Keeps the arguments that name existing images that FlashCap opens, in order.
/// Flags such as `--capture` have no extension and drop out.
pub fn collect_image_args(args: Vec<String>, exists: Vec<bool>) -> (r: Vec<String>)
    requires
        args.len() == exists.len(),
    ensures
        r.deep_view() == existing_images(args.deep_view(), exists@),
{
    let mut r: Vec<String> = Vec::new();
    let mut i: usize = 0;
    while i < args.len()
        invariant
            args.len() == exists.len(),
            i <= args.len(),
            r.deep_view() == existing_images(
                args.deep_view().take(i as int),
                exists@.take(i as int),
            ),
        decreases args.len() - i,
    {
        let ghost before = r.deep_view();
        let keep = exists[i] && is_supported_image_path(args[i].as_str());
        assert(args.deep_view().take(i + 1).drop_last() =~= args.deep_view().take(i as int));
        assert(exists@.take(i + 1).drop_last() =~= exists@.take(i as int));
        if keep {
            r.push(args[i].clone());
            assert(r.deep_view() =~= before.push(args[i as int]@));
        }
        i = i + 1;
    }
    assert(args.deep_view().take(args.len() as int) =~= args.deep_view());
    assert(exists@.take(args.len() as int) =~= exists@);
    r
}

/// Whether some argument asks for a capture (`--capture` or `flashcap://capture`).
pub open spec fn asks_for_capture(args: Seq<Seq<char>>) -> bool {
    exists|i: int| 0 <= i < args.len() && (args[i] == "--capture"@ || is_capture_url_text(args[i]))
}

/// The images to open on a cold start: none when a capture is asked for (as on a
/// second launch, which does not look at files then), otherwise the existing images.
pub open spec fn startup_images(args: Seq<Seq<char>>, exists: Seq<bool>) -> Seq<Seq<char>> {
    if asks_for_capture(args) {
        seq![]
    } else {
        existing_images(args, exists)
    }
}

/// Decides which images a cold start opens; `--capture` wins over image arguments.
pub fn image_args_for_startup(args: Vec<String>, exists: Vec<bool>) -> (r: Vec<String>)
    requires
        args.len() == exists.len(),
    ensures
        r.deep_view() == startup_images(args.deep_view(), exists@),
{
    let mut i: usize = 0;
    while i < args.len()
        invariant
            i <= args.len(),
            forall|j: int|
                0 <= j < i ==> !(args.deep_view()[j] == "--capture"@ || is_capture_url_text(
                    args.deep_view()[j],
                )),
        decreases args.len() - i,
    {
        if is_capture_arg(args[i].as_str()) || is_capture_url(args[i].as_str()) {
            assert(args.deep_view()[i as int] == args[i as int]@);
            let r: Vec<String> = Vec::new();
            assert(r.deep_view() =~= seq![]);
            return r;
        }
        i = i + 1;
    }
    collect_image_args(args, exists)
}

/// The predicate accepts exactly the listed extensions: every extension of
/// `supported_extensions` (png, jpg, jpeg, gif, bmp, webp, tiff, tif, heic, heif) is
/// supported, and nothing else is.
pub proof fn law_supported_extensions_are_the_listed_ones(ext: Seq<char>)
    ensures
        forall|i: int| 0 <= i < supported_extensions().len() ==> is_supported_extension(
            #[trigger] supported_extensions()[i],
        ),
        is_supported_extension(ext) <==> supported_extensions().contains(ext),
{
    if is_supported_extension(ext) {
        if ext == "png"@ { assert(supported_extensions()[0] == ext); }
        else if ext == "jpg"@ { assert(supported_extensions()[1] == ext); }
        else if ext == "jpeg"@ { assert(supported_extensions()[2] == ext); }
        else if ext == "gif"@ { assert(supported_extensions()[3] == ext); }
        else if ext == "bmp"@ { assert(supported_extensions()[4] == ext); }
        else if ext == "webp"@ { assert(supported_extensions()[5] == ext); }
        else if ext == "tiff"@ { assert(supported_extensions()[6] == ext); }
        else if ext == "tif"@ { assert(supported_extensions()[7] == ext); }
        else if ext == "heic"@ { assert(supported_extensions()[8] == ext); }
        else { assert(supported_extensions()[9] == ext); }
    }
}

/// A path whose extension, lower-cased, is one of the listed extensions names an image
/// that FlashCap opens (a `.jpg` photo among them); one without such an extension does
/// not.
pub proof fn law_listed_extensions_are_opened(path: Seq<char>, ext: Seq<char>)
    requires
        path_extension(path) == Some(ext),
    ensures
        is_image_path(path) <==> supported_extensions().contains(lowercased(ext)),
{
    law_supported_extensions_are_the_listed_ones(lowercased(ext));
}

} // verus!
