//! Screen recording and export: the region to record, the clean-up of old raw
//! recordings, and the `ffmpeg` filters and arguments of an export.
use vstd::prelude::*;
use crate::paths::{
    file_extension, file_name, path_extension, path_file_name, path_has_prefix, path_starts_with,
    paths_equal, same_path,
};
use crate::text::{
    chars_of, chars_start_with, concat2, decimal, has_prefix, owned, push_chars,
    push_decimal, push_signed_decimal, push_str, signed_decimal, str_eq, string_of, trim_chars,
    sub_chars, trimmed, is_white_space, leading_white, trailing_white, signed_value,
};
use crate::text::law_signed_decimal_reads_back;

verus! {

/// A finished recording: the raw `.mov` in the working directory.
#[derive(Debug)]
pub struct VideoResult {
    /// The absolute path of the raw `.mov`.
    pub file_path: String,
}

/// Whether `c` is an ASCII hexadecimal digit.
pub open spec fn is_hex_digit(c: char) -> bool {
    ('0' <= c <= '9') || ('a' <= c <= 'f') || ('A' <= c <= 'F')
}

/// Number of leading `#` of `s`.
pub open spec fn leading_hashes(s: Seq<char>) -> nat
    decreases s.len(),
{
    if s.len() > 0 && s[0] == '#' {
        1 + leading_hashes(s.drop_first())
    } else {
        0
    }
}

/// `s` without its leading `#`s (`str::trim_start_matches('#')`).
pub open spec fn without_hashes(s: Seq<char>) -> Seq<char> {
    s.skip(leading_hashes(s) as int)
}

/// The `ffmpeg` colour for a user's pad colour: `0x` and the six hex digits when the
/// colour, trimmed and without leading `#`, is exactly six hex digits; black otherwise.
/// Nothing else reaches the filter string, so a colour cannot inject filter syntax.
/// (Six hex digits are six bytes as well as six characters, so the length check means
/// the same whether bytes or characters are counted.)
pub open spec fn sanitized_color(hex: Seq<char>) -> Seq<char> {
    let h = without_hashes(trimmed(hex));
    if h.len() == 6 && (forall|i: int| 0 <= i < 6 ==> is_hex_digit(h[i])) {
        "0x"@ + h
    } else {
        "0x000000"@
    }
}

fn count_hashes(v: &Vec<char>, i: usize) -> (n: usize)
    requires
        i <= v.len(),
    ensures
        n == leading_hashes(v@.skip(i as int)),
        i + n <= v.len(),
    decreases v.len() - i,
{
    if i < v.len() && v[i] == '#' {
        assert(v@.skip(i as int).drop_first() =~= v@.skip(i + 1));
        count_hashes(v, i + 1) + 1
    } else {
        0
    }
}

/// Normalises a pad colour for `ffmpeg` (see `sanitized_color`).
pub fn sanitize_color(hex: &str) -> (r: String)
    ensures
        r@ == sanitized_color(hex@),
{
    let v = chars_of(hex);
    let t = trim_chars(&v);
    let n = count_hashes(&t, 0);
    assert(t@.skip(0) =~= t@);
    let h = sub_chars(&t, n, t.len());
    assert(h@ =~= without_hashes(trimmed(hex@)));
    let mut ok = h.len() == 6;
    let mut i: usize = 0;
    while ok && i < h.len()
        invariant
            i <= h.len(),
            ok ==> h.len() == 6,
            ok ==> forall|j: int| 0 <= j < i ==> is_hex_digit(h@[j]),
            !ok ==> !(h.len() == 6 && (forall|j: int| 0 <= j < 6 ==> is_hex_digit(h@[j]))),
        decreases h.len() - i,
    {
        let c = h[i];
        if !(('0' <= c && c <= '9') || ('a' <= c && c <= 'f') || ('A' <= c && c <= 'F')) {
            ok = false;
        }
        i = i + 1;
    }
    if ok {
        let mut out = chars_of("0x");
        push_chars(&mut out, &h);
        string_of(&out)
    } else {
        owned("0x000000")
    }
}

/// Whatever the user gives, the colour handed to `ffmpeg` is `0x` and six hex digits.
pub proof fn law_sanitized_color_is_six_hex_digits(hex: Seq<char>)
    ensures
        sanitized_color(hex).len() == 8,
        sanitized_color(hex).take(2) == "0x"@,
        forall|i: int| 2 <= i < 8 ==> is_hex_digit(#[trigger] sanitized_color(hex)[i]),
{
    reveal_strlit("0x");
    reveal_strlit("0x000000");
    let h = without_hashes(trimmed(hex));
    if h.len() == 6 && (forall|i: int| 0 <= i < 6 ==> is_hex_digit(h[i])) {
        assert(("0x"@ + h).take(2) =~= "0x"@);
        assert forall|i: int| 2 <= i < 8 implies is_hex_digit(#[trigger] sanitized_color(hex)[i]) by {
            assert(sanitized_color(hex)[i] == h[i - 2]);
        }
    } else {
        assert("0x000000"@.take(2) =~= "0x"@);
    }
}

/// The fixed frame size of a size preset: `hd` 1920×1080, `720p` 1280×720, `square512`
/// 512×512; `None` for the others.
pub open spec fn preset_size(preset: Seq<char>) -> Option<(u32, u32)> {
    if preset == "hd"@ {
        Some((1920u32, 1080u32))
    } else if preset == "720p"@ {
        Some((1280u32, 720u32))
    } else if preset == "square512"@ {
        Some((512u32, 512u32))
    } else {
        None
    }
}

/// `w:h` in decimal.
pub open spec fn size_text(w: u32, h: u32) -> Seq<char> {
    decimal(w as nat) + ":"@ + decimal(h as nat)
}

/// The `ffmpeg` scale filter for a size preset and resize mode: `original` crops to
/// even dimensions without resampling, `half` halves to even dimensions; a fixed size is
/// filled (scaled up and cropped) or fitted (scaled down, then padded with the sanitised
/// colour, or rounded to even dimensions). Anything else is refused.
pub open spec fn scale_filter(
    preset: Seq<char>,
    mode: Seq<char>,
    pad: bool,
    pad_color: Seq<char>,
) -> Result<Seq<char>, Seq<char>> {
    if preset == "original"@ {
        Ok("crop=trunc(iw/2)*2:trunc(ih/2)*2:0:0"@)
    } else if preset == "half"@ {
        Ok("scale=trunc(iw/4)*2:trunc(ih/4)*2"@)
    } else if preset_size(preset) is Some {
        let (w, h) = preset_size(preset)->0;
        let wh = size_text(w, h);
        if mode == "fill"@ {
            Ok("scale="@ + wh + ":force_original_aspect_ratio=increase,crop="@ + wh)
        } else if mode == "fit"@ {
            if pad {
                Ok(
                    "scale="@ + wh + ":force_original_aspect_ratio=decrease,pad="@ + wh
                        + ":(ow-iw)/2:(oh-ih)/2:"@ + sanitized_color(pad_color),
                )
            } else {
                Ok("scale="@ + wh + ":force_original_aspect_ratio=decrease:force_divisible_by=2"@)
            }
        } else {
            Err("Invalid resize_mode: "@ + mode)
        }
    } else {
        Err("Invalid size_preset: "@ + preset)
    }
}

fn push_size(v: &mut Vec<char>, w: u32, h: u32)
    ensures
        final(v)@ == old(v)@ + size_text(w, h),
{
    push_decimal(v, w as u128);
    push_str(v, ":");
    push_decimal(v, h as u128);
    assert(final(v)@ =~= old(v)@ + size_text(w, h));
}

/// Builds the `ffmpeg` scale filter (see `scale_filter`). The result agrees with
/// `scale_filter` in both cases.
pub fn build_scale_filter(
    size_preset: &str,
    resize_mode: &str,
    pad: bool,
    pad_color: &str,
) -> (r: Result<String, String>)
    ensures
        match r {
            Ok(f) => scale_filter(size_preset@, resize_mode@, pad, pad_color@) == Ok::<
                Seq<char>,
                Seq<char>,
            >(f@),
            Err(e) => scale_filter(size_preset@, resize_mode@, pad, pad_color@) == Err::<
                Seq<char>,
                Seq<char>,
            >(e@),
        },
{
    if str_eq(size_preset, "original") {
        return Ok(owned("crop=trunc(iw/2)*2:trunc(ih/2)*2:0:0"));
    }
    if str_eq(size_preset, "half") {
        return Ok(owned("scale=trunc(iw/4)*2:trunc(ih/4)*2"));
    }
    let (w, h): (u32, u32) = if str_eq(size_preset, "hd") {
        (1920, 1080)
    } else if str_eq(size_preset, "720p") {
        (1280, 720)
    } else if str_eq(size_preset, "square512") {
        (512, 512)
    } else {
        return Err(concat2("Invalid size_preset: ", size_preset));
    };
    assert(preset_size(size_preset@) == Some((w, h)));
    if str_eq(resize_mode, "fill") {
        let mut v = chars_of("scale=");
        push_size(&mut v, w, h);
        push_str(&mut v, ":force_original_aspect_ratio=increase,crop=");
        push_size(&mut v, w, h);
        Ok(string_of(&v))
    } else if str_eq(resize_mode, "fit") {
        if pad {
            let color = sanitize_color(pad_color);
            let mut v = chars_of("scale=");
            push_size(&mut v, w, h);
            push_str(&mut v, ":force_original_aspect_ratio=decrease,pad=");
            push_size(&mut v, w, h);
            push_str(&mut v, ":(ow-iw)/2:(oh-ih)/2:");
            push_str(&mut v, color.as_str());
            Ok(string_of(&v))
        } else {
            let mut v = chars_of("scale=");
            push_size(&mut v, w, h);
            push_str(&mut v, ":force_original_aspect_ratio=decrease:force_divisible_by=2");
            Ok(string_of(&v))
        }
    } else {
        Err(concat2("Invalid resize_mode: ", resize_mode))
    }
}

/// Every fixed frame size is even in both dimensions, as H.264 requires.
pub proof fn law_preset_sizes_are_even(preset: Seq<char>)
    ensures
        preset_size(preset) matches Some((w, h)) ==> w % 2 == 0 && h % 2 == 0,
{
}


/// The largest width or height of a recording region (beyond any display setup).
pub const MAX_REGION_SIDE: i32 = 16384;

/// The region argument of `screencapture -R`: `x,y,width,height` in decimal, or the
/// refusal of a width or height outside `1..=16384`.
pub open spec fn recording_region_text(x: i32, y: i32, width: i32, height: i32) -> Result<
    Seq<char>,
    Seq<char>,
> {
    if !(1 <= width <= MAX_REGION_SIDE) || !(1 <= height <= MAX_REGION_SIDE) {
        Err("Invalid recording region"@)
    } else {
        Ok(
            signed_decimal(x as int) + ","@ + signed_decimal(y as int) + ","@ + signed_decimal(
                width as int,
            ) + ","@ + signed_decimal(height as int),
        )
    }
}

/// Checks a recording region (global Quartz points; external displays may have negative
/// coordinates) and writes it as `screencapture -R` takes it.
pub fn recording_region(x: i32, y: i32, width: i32, height: i32) -> (r: Result<String, String>)
    ensures
        match r {
            Ok(t) => recording_region_text(x, y, width, height) == Ok::<Seq<char>, Seq<char>>(t@),
            Err(e) => recording_region_text(x, y, width, height) == Err::<Seq<char>, Seq<char>>(
                e@,
            ),
        },
{
    if !(1 <= width && width <= MAX_REGION_SIDE) || !(1 <= height && height <= MAX_REGION_SIDE) {
        return Err(owned("Invalid recording region"));
    }
    let mut v: Vec<char> = Vec::new();
    push_signed_decimal(&mut v, x as i64);
    push_str(&mut v, ",");
    push_signed_decimal(&mut v, y as i64);
    push_str(&mut v, ",");
    push_signed_decimal(&mut v, width as i64);
    push_str(&mut v, ",");
    push_signed_decimal(&mut v, height as i64);
    assert(v@ =~= signed_decimal(x as int) + ","@ + signed_decimal(y as int) + ","@
        + signed_decimal(width as int) + ","@ + signed_decimal(height as int));
    Ok(string_of(&v))
}

/// The arguments of `screencapture` for recording `region` to `path`: video (`-v`),
/// silently (`-x`), without DPI metadata (`-r`), of a region (`-R`).
pub open spec fn recording_args_text(region: Seq<char>, path: Seq<char>) -> Seq<Seq<char>> {
    seq!["-v"@, "-x"@, "-r"@, "-R"@, region, path]
}

/// The arguments of `screencapture` for a recording.
pub fn recording_args(region: &str, path: &str) -> (r: Vec<String>)
    ensures
        r.deep_view() == recording_args_text(region@, path@),
{
    let r = vec![owned("-v"), owned("-x"), owned("-r"), owned("-R"), owned(region), owned(path)];
    assert(r.deep_view() =~= recording_args_text(region@, path@));
    r
}

/// The file name of a raw recording made at `timestamp`.
pub fn recording_file_name(timestamp: &str) -> (r: String)
    ensures
        r@ == "rec-"@ + timestamp@ + ".mov"@,
{
    crate::text::concat3("rec-", timestamp, ".mov")
}

/// Whether an entry of the working directory is an old raw recording to delete: not the
/// recording just made, with extension `mov` and a name that starts with `rec-`.
pub open spec fn is_stale_recording(path: Seq<char>, keep: Seq<char>) -> bool {
    &&& !paths_equal(path, keep)
    &&& path_extension(path) == Some("mov"@)
    &&& path_file_name(path) matches Some(n) && has_prefix(n, "rec-"@)
}

/// Decides whether an entry of the working directory is an old raw recording.
pub fn stale_recording(path: &str, keep: &str) -> (r: bool)
    ensures
        r == is_stale_recording(path@, keep@),
{
    if same_path(path, keep) {
        return false;
    }
    let is_mov = match file_extension(path) {
        Some(e) => str_eq(e.as_str(), "mov"),
        None => false,
    };
    if !is_mov {
        return false;
    }
    match file_name(path) {
        Some(n) => {
            let v = chars_of(n.as_str());
            let p = chars_of("rec-");
            chars_start_with(&v, &p)
        },
        None => false,
    }
}

/// The places where `ffmpeg` and its kin are looked for first (Homebrew, the former
/// Homebrew prefix, MacPorts): a GUI process gets only a minimal `PATH`.
pub open spec fn binary_candidate_paths(name: Seq<char>) -> Seq<Seq<char>> {
    seq!["/opt/homebrew/bin/"@ + name, "/usr/local/bin/"@ + name, "/opt/local/bin/"@ + name]
}

/// The places where an installed program is looked for first, in order.
pub fn binary_candidates(name: &str) -> (r: Vec<String>)
    ensures
        r.deep_view() == binary_candidate_paths(name@),
{
    let r = vec![
        concat2("/opt/homebrew/bin/", name),
        concat2("/usr/local/bin/", name),
        concat2("/opt/local/bin/", name),
    ];
    assert(r.deep_view() =~= binary_candidate_paths(name@));
    r
}

/// The extension of an export: `mp4` or `gif`; any other format is refused.
pub open spec fn export_extension_text(format: Seq<char>) -> Result<Seq<char>, Seq<char>> {
    if format == "mp4"@ {
        Ok("mp4"@)
    } else if format == "gif"@ {
        Ok("gif"@)
    } else {
        Err("Invalid format: "@ + format)
    }
}

/// Checks an export format and gives the extension of the file to write.
pub fn export_extension(format: &str) -> (r: Result<&'static str, String>)
    ensures
        match r {
            Ok(x) => export_extension_text(format@) == Ok::<Seq<char>, Seq<char>>(x@),
            Err(e) => export_extension_text(format@) == Err::<Seq<char>, Seq<char>>(e@),
        },
{
    if str_eq(format, "mp4") {
        Ok("mp4")
    } else if str_eq(format, "gif") {
        Ok("gif")
    } else {
        Err(concat2("Invalid format: ", format))
    }
}

/// The video filter of an export: the scale filter, then `setsar=1` (square pixels, so
/// that players do not rescale).
pub fn export_filter(
    size_preset: &str,
    resize_mode: &str,
    pad: bool,
    pad_color: &str,
) -> (r: Result<String, String>)
    ensures
        match r {
            Ok(f) => scale_filter(size_preset@, resize_mode@, pad, pad_color@) matches Ok(s)
                && f@ == s + ",setsar=1"@,
            Err(e) => scale_filter(size_preset@, resize_mode@, pad, pad_color@) == Err::<
                Seq<char>,
                Seq<char>,
            >(e@),
        },
{
    match build_scale_filter(size_preset, resize_mode, pad, pad_color) {
        Ok(f) => Ok(concat2(f.as_str(), ",setsar=1")),
        Err(e) => Err(e),
    }
}

/// The frame rate of a GIF export: `fps` limited to `1..=50`.
pub fn gif_fps(fps: u32) -> (r: u32)
    ensures
        r == (if fps < 1 {
            1
        } else if fps > 50 {
            50
        } else {
            fps
        }),
{
    if fps < 1 {
        1
    } else if fps > 50 {
        50
    } else {
        fps
    }
}

/// Whether an export's (resolved) input lies in the (resolved) working directory; only
/// raw recordings there are exported.
pub fn input_in_working_directory(input: &str, working_dir: &str) -> (r: Result<(), String>)
    ensures
        r is Ok <==> path_has_prefix(input@, working_dir@),
        r matches Err(e) ==> e@ == "Input video is outside the working directory"@,
{
    if path_starts_with(input, working_dir) {
        Ok(())
    } else {
        Err(owned("Input video is outside the working directory"))
    }
}

/// The `ffmpeg` arguments of an MP4 export: trimmed on the input side (`-ss`, `-t`
/// before `-i`), H.264 at CRF 20, fast start, no audio.
pub open spec fn mp4_args_text(
    start: Seq<char>,
    duration: Seq<char>,
    input: Seq<char>,
    filter: Seq<char>,
    output: Seq<char>,
) -> Seq<Seq<char>> {
    seq![
        "-y"@, "-ss"@, start, "-t"@, duration, "-i"@, input, "-vf"@, filter, "-c:v"@,
        "libx264"@, "-crf"@, "20"@, "-preset"@, "veryfast"@, "-pix_fmt"@, "yuv420p"@,
        "-movflags"@, "+faststart"@, "-an"@, output,
    ]
}

/// The `ffmpeg` arguments of an MP4 export.
pub fn mp4_args(start: &str, duration: &str, input: &str, filter: &str, output: &str) -> (r: Vec<
    String,
>)
    ensures
        r.deep_view() == mp4_args_text(start@, duration@, input@, filter@, output@),
{
    let r = vec![
        owned("-y"), owned("-ss"), owned(start), owned("-t"), owned(duration), owned("-i"),
        owned(input), owned("-vf"), owned(filter), owned("-c:v"), owned("libx264"),
        owned("-crf"), owned("20"), owned("-preset"), owned("veryfast"), owned("-pix_fmt"),
        owned("yuv420p"), owned("-movflags"), owned("+faststart"), owned("-an"), owned(output),
    ];
    assert(r.deep_view() =~= mp4_args_text(start@, duration@, input@, filter@, output@));
    r
}

/// The first pass of a GIF export: a palette of the trimmed input at `fps`, written as a
/// single image.
pub open spec fn gif_palette_args_text(
    start: Seq<char>,
    duration: Seq<char>,
    input: Seq<char>,
    filter: Seq<char>,
    fps: u32,
    palette: Seq<char>,
) -> Seq<Seq<char>> {
    seq![
        "-y"@, "-ss"@, start, "-t"@, duration, "-i"@, input, "-vf"@, filter + ",fps="@
            + decimal(fps as nat) + ",palettegen=stats_mode=diff"@, "-update"@, "1"@,
        "-frames:v"@, "1"@, palette,
    ]
}

/// The `ffmpeg` arguments of a GIF export's first pass (the palette).
pub fn gif_palette_args(
    start: &str,
    duration: &str,
    input: &str,
    filter: &str,
    fps: u32,
    palette: &str,
) -> (r: Vec<String>)
    ensures
        r.deep_view() == gif_palette_args_text(start@, duration@, input@, filter@, fps, palette@),
{
    let mut f = chars_of(filter);
    push_str(&mut f, ",fps=");
    push_decimal(&mut f, fps as u128);
    push_str(&mut f, ",palettegen=stats_mode=diff");
    let vf = string_of(&f);
    let r = vec![
        owned("-y"), owned("-ss"), owned(start), owned("-t"), owned(duration), owned("-i"),
        owned(input), owned("-vf"), vf, owned("-update"), owned("1"), owned("-frames:v"),
        owned("1"), owned(palette),
    ];
    assert(r.deep_view() =~= gif_palette_args_text(start@, duration@, input@, filter@, fps, palette@));
    r
}

/// The second pass of a GIF export: the trimmed input at `fps`, mapped onto the palette
/// with Bayer dithering.
pub open spec fn gif_encode_args_text(
    start: Seq<char>,
    duration: Seq<char>,
    input: Seq<char>,
    palette: Seq<char>,
    filter: Seq<char>,
    fps: u32,
    output: Seq<char>,
) -> Seq<Seq<char>> {
    seq![
        "-y"@, "-ss"@, start, "-t"@, duration, "-i"@, input, "-i"@, palette, "-lavfi"@, filter
            + ",fps="@ + decimal(fps as nat) + "[x];[x][1:v]paletteuse=dither=bayer:bayer_scale=3"@,
        output,
    ]
}

/// The `ffmpeg` arguments of a GIF export's second pass.
pub fn gif_encode_args(
    start: &str,
    duration: &str,
    input: &str,
    palette: &str,
    filter: &str,
    fps: u32,
    output: &str,
) -> (r: Vec<String>)
    ensures
        r.deep_view() == gif_encode_args_text(
            start@,
            duration@,
            input@,
            palette@,
            filter@,
            fps,
            output@,
        ),
{
    let mut f = chars_of(filter);
    push_str(&mut f, ",fps=");
    push_decimal(&mut f, fps as u128);
    push_str(&mut f, "[x];[x][1:v]paletteuse=dither=bayer:bayer_scale=3");
    let lavfi = string_of(&f);
    let r = vec![
        owned("-y"), owned("-ss"), owned(start), owned("-t"), owned(duration), owned("-i"),
        owned(input), owned("-i"), owned(palette), owned("-lavfi"), lavfi, owned(output),
    ];
    assert(r.deep_view() =~= gif_encode_args_text(
        start@,
        duration@,
        input@,
        palette@,
        filter@,
        fps,
        output@,
    ));
    r
}

/// The file name of an export made at `timestamp` (with milliseconds) in format `ext`.
pub fn export_file_name(timestamp: &str, ext: &str) -> (r: String)
    ensures
        r@ == "flashcap-"@ + timestamp@ + "."@ + ext@,
{
    let mut v = chars_of("flashcap-");
    push_str(&mut v, timestamp);
    push_str(&mut v, ".");
    push_str(&mut v, ext);
    string_of(&v)
}


/// The file name of a GIF palette made by process `pid` at `time`.
pub fn palette_file_name(pid: u32, time: &str) -> (r: String)
    ensures
        r@ == "palette-"@ + decimal(pid as nat) + "-"@ + time@ + ".png"@,
{
    let mut v = chars_of("palette-");
    push_decimal(&mut v, pid as u128);
    push_str(&mut v, "-");
    push_str(&mut v, time);
    push_str(&mut v, ".png");
    string_of(&v)
}

/// The index of the first `\n` in `s`, or its length when there is none.
pub open spec fn first_newline(s: Seq<char>) -> nat
    decreases s.len(),
{
    if s.len() == 0 || s[0] == '\n' {
        0
    } else {
        1 + first_newline(s.drop_first())
    }
}

/// A line cut before its `\n`, without the `\r` of a `\r\n` ending.
pub open spec fn without_cr(line: Seq<char>) -> Seq<char> {
    if line.len() > 0 && line.last() == '\r' {
        line.drop_last()
    } else {
        line
    }
}

/// The lines of `s` as `str::lines` gives them: `s` is cut after each `\n`; each line
/// loses its `\n`, and the `\r` before it; a last line without `\n` is kept as it is
/// (a `\r` at its end included), and nothing follows a final `\n`.
pub open spec fn text_lines(s: Seq<char>) -> Seq<Seq<char>>
    decreases s.len(),
{
    if s.len() == 0 {
        seq![]
    } else if first_newline(s) >= s.len() {
        seq![s]
    } else {
        seq![without_cr(s.take(first_newline(s) as int))] + text_lines(
            s.skip(first_newline(s) + 1int),
        )
    }
}

/// `first_newline` is `m` when no `\n` comes before `m`, and `m` is the end of `s` or a
/// `\n`.
proof fn lemma_first_newline_is(s: Seq<char>, m: int)
    requires
        0 <= m <= s.len(),
        forall|i: int| 0 <= i < m ==> s[i] != '\n',
        m == s.len() || s[m] == '\n',
    ensures
        first_newline(s) == m,
    decreases m,
{
    if m > 0 {
        let t = s.drop_first();
        assert forall|i: int| 0 <= i < m - 1 implies t[i] != '\n' by {
            assert(t[i] == s[i + 1]);
        }
        if m < s.len() {
            assert(t[m - 1] == s[m]);
        }
        lemma_first_newline_is(t, m - 1);
    }
}

/// Splits text into lines, as `str::lines` does (see `text_lines`).
pub fn lines_of(s: &str) -> (r: Vec<String>)
    ensures
        r.deep_view() == text_lines(s@),
{
    let v = chars_of(s);
    let mut out: Vec<String> = Vec::new();
    let mut start: usize = 0;
    assert(v@.skip(0) =~= v@);
    while start < v.len()
        invariant
            start <= v.len(),
            v@ == s@,
            out.deep_view() + text_lines(v@.skip(start as int)) == text_lines(s@),
        decreases v.len() - start,
    {
        let ghost rest = v@.skip(start as int);
        let ghost before = out.deep_view();
        let mut k = start;
        while k < v.len() && v[k] != '\n'
            invariant
                start <= k <= v.len(),
                forall|i: int| start <= i < k ==> v@[i] != '\n',
            decreases v.len() - k,
        {
            k = k + 1;
        }
        proof {
            assert forall|i: int| 0 <= i < k - start implies rest[i] != '\n' by {
                assert(rest[i] == v@[start + i]);
            }
            if k < v.len() {
                assert(rest[k - start] == v@[k as int]);
            }
            lemma_first_newline_is(rest, k - start);
        }
        if k == v.len() {
            let line = sub_chars(&v, start, k);
            out.push(string_of(&line));
            proof {
                assert(line@ =~= rest);
                assert(v@.skip(k as int) =~= Seq::<char>::empty());
                assert(out.deep_view() =~= before.push(rest));
                assert(out.deep_view() + text_lines(v@.skip(k as int)) =~= before
                    + text_lines(rest));
            }
            start = k;
        } else {
            let end = if k > start && v[k - 1] == '\r' {
                k - 1
            } else {
                k
            };
            let line = sub_chars(&v, start, end);
            out.push(string_of(&line));
            proof {
                assert(line@ =~= without_cr(rest.take(k - start)));
                assert(rest.skip(k - start + 1) =~= v@.skip(k + 1));
                assert(out.deep_view() =~= before.push(line@));
                assert(out.deep_view() + text_lines(v@.skip(k + 1)) =~= before + text_lines(
                    rest,
                ));
            }
            start = k + 1;
        }
    }
    assert(v@.skip(start as int) =~= Seq::<char>::empty());
    assert(out.deep_view() + text_lines(v@.skip(start as int)) =~= out.deep_view());
    out
}

/// How many lines of `ffmpeg`'s error output a failure reports.
pub const TAIL_LINES: usize = 12;

/// Lines joined with `\n` between them.
pub open spec fn joined_lines(lines: Seq<Seq<char>>) -> Seq<char>
    decreases lines.len(),
{
    if lines.len() == 0 {
        seq![]
    } else if lines.len() == 1 {
        lines[0]
    } else {
        joined_lines(lines.drop_last()) + seq!['\n'] + lines.last()
    }
}

/// The last `TAIL_LINES` lines of `stderr` (all of them when there are fewer), joined
/// with `\n`.
pub open spec fn error_tail(stderr: Seq<char>) -> Seq<char> {
    let lines = text_lines(stderr);
    if lines.len() <= TAIL_LINES {
        joined_lines(lines)
    } else {
        joined_lines(lines.skip(lines.len() - TAIL_LINES))
    }
}

/// The report of a failed `ffmpeg` run: the last lines of its error output.
pub fn ffmpeg_failure(stderr: &str) -> (r: String)
    ensures
        r@ == "ffmpeg failed:\n"@ + error_tail(stderr@),
{
    let lines = lines_of(stderr);
    let start: usize = if lines.len() <= TAIL_LINES {
        0
    } else {
        lines.len() - TAIL_LINES
    };
    let ghost kept = lines.deep_view().skip(start as int);
    let mut v = chars_of("ffmpeg failed:\n");
    let ghost head = v@;
    let mut i = start;
    while i < lines.len()
        invariant
            start <= i <= lines.len(),
            kept == lines.deep_view().skip(start as int),
            v@ == head + joined_lines(kept.take(i - start)),
        decreases lines.len() - i,
    {
        if i > start {
            v.push('\n');
        }
        let w = chars_of(lines[i].as_str());
        crate::text::push_chars(&mut v, &w);
        proof {
            let t = kept.take(i + 1 - start);
            assert(t.drop_last() =~= kept.take(i - start));
            assert(t.last() == lines.deep_view()[i as int]);
            if i > start {
                assert(v@ =~= head + joined_lines(t));
            } else {
                assert(t.len() == 1);
                assert(v@ =~= head + joined_lines(t));
            }
        }
        i = i + 1;
    }
    assert(kept.take(lines.len() - start) =~= kept);
    assert(start == 0 ==> lines.deep_view().skip(0) =~= lines.deep_view());
    string_of(&v)
}

/// Text that neither begins nor ends with white space is its own trim.
proof fn lemma_trim_of_unpadded(s: Seq<char>)
    requires
        s.len() > 0,
        !is_white_space(s[0]),
        !is_white_space(s.last()),
    ensures
        trimmed(s) == s,
{
    assert(leading_white(s) == 0);
    assert(s.skip(0) =~= s);
    assert(trailing_white(s) == 0);
    assert(s.take(s.len() as int) =~= s);
}

/// A colour of six ASCII hex digits ('0'..='9', 'a'..='f', 'A'..='F'), with or without
/// a leading `#`, reaches `ffmpeg` as `0x` followed by those six digits.
pub proof fn law_hex_colours_are_kept(h: Seq<char>)
    requires
        h.len() == 6,
        forall|i: int| 0 <= i < 6 ==> ('0' <= #[trigger] h[i] <= '9') || ('a' <= h[i] <= 'f') || (
        'A' <= h[i] <= 'F'),
    ensures
        sanitized_color(h) == "0x"@ + h,
        sanitized_color(seq!['#'] + h) == "0x"@ + h,
{
    assert(('0' <= h[0] <= '9') || ('a' <= h[0] <= 'f') || ('A' <= h[0] <= 'F'));
    assert(('0' <= h[5] <= '9') || ('a' <= h[5] <= 'f') || ('A' <= h[5] <= 'F'));
    lemma_trim_of_unpadded(h);
    assert(leading_hashes(h) == 0);
    assert(h.skip(0) =~= h);
    assert(without_hashes(h) == h);
    assert(forall|i: int| 0 <= i < 6 ==> is_hex_digit(h[i]));
    let g = seq!['#'] + h;
    assert(g[0] == '#');
    assert(g.last() == h[5]);
    lemma_trim_of_unpadded(g);
    assert(g.drop_first() =~= h);
    assert(leading_hashes(g) == 1);
    assert(g.skip(1) =~= h);
    assert(without_hashes(g) == h);
}

/// A region within the size limit is handed to `screencapture -R` as four fields
/// separated by `,`: x, y, width and height, each written in signed decimal (a `-`
/// before the digits of a negative value, as for a display left of or above the main
/// one), so that each field reads back to its value; a region outside the limit is
/// refused.
pub proof fn law_region_fields_read_back(x: i32, y: i32, width: i32, height: i32)
    ensures
        1 <= width <= MAX_REGION_SIDE && 1 <= height <= MAX_REGION_SIDE ==> recording_region_text(
            x,
            y,
            width,
            height,
        ) == Ok::<Seq<char>, Seq<char>>(
            signed_decimal(x as int) + ","@ + signed_decimal(y as int) + ","@ + signed_decimal(
                width as int,
            ) + ","@ + signed_decimal(height as int),
        ),
        !(1 <= width <= MAX_REGION_SIDE && 1 <= height <= MAX_REGION_SIDE) ==> recording_region_text(
            x,
            y,
            width,
            height,
        ) == Err::<Seq<char>, Seq<char>>("Invalid recording region"@),
        signed_value(signed_decimal(x as int)) == x && !signed_decimal(x as int).contains(','),
        signed_value(signed_decimal(y as int)) == y && !signed_decimal(y as int).contains(','),
        signed_value(signed_decimal(width as int)) == width && !signed_decimal(width as int).contains(','),
        signed_value(signed_decimal(height as int)) == height && !signed_decimal(height as int).contains(','),
{
    law_signed_decimal_reads_back(x as int);
    law_signed_decimal_reads_back(y as int);
    law_signed_decimal_reads_back(width as int);
    law_signed_decimal_reads_back(height as int);
}

/// A colour that is neither padded with white space nor begins with `#` is kept as
/// `0x` and itself exactly when it is six ASCII hex digits ('0'..='9', 'a'..='f',
/// 'A'..='F'); anything else becomes black.
pub proof fn law_only_hex_colours_are_kept(h: Seq<char>)
    requires
        h.len() > 0,
        !is_white_space(h[0]),
        !is_white_space(h.last()),
        h[0] != '#',
    ensures
        sanitized_color(h) == (if h.len() == 6 && (forall|i: int| 0 <= i < 6 ==> ('0' <= #[trigger] h[i]
            <= '9') || ('a' <= h[i] <= 'f') || ('A' <= h[i] <= 'F')) {
            "0x"@ + h
        } else {
            "0x000000"@
        }),
{
    lemma_trim_of_unpadded(h);
    assert(leading_hashes(h) == 0);
    assert(h.skip(0) =~= h);
    assert(without_hashes(h) == h);
}

} // verus!
