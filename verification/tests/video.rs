use flashcap::video::{
    binary_candidates, build_scale_filter, export_extension, export_file_name, export_filter,
    ffmpeg_failure, gif_encode_args, gif_fps, gif_palette_args, input_in_working_directory, lines_of,
    mp4_args, palette_file_name, recording_args, recording_file_name, recording_region,
    sanitize_color, stale_recording,
};

#[test]
fn pad_colours_are_sanitised() {
    assert_eq!(sanitize_color("#ff00AA"), "0xff00AA");
    assert_eq!(sanitize_color("  ##123456 \n"), "0x123456");
    assert_eq!(sanitize_color("red"), "0x000000");
    assert_eq!(sanitize_color("#12345"), "0x000000");
    assert_eq!(sanitize_color("#1234567"), "0x000000");
    assert_eq!(sanitize_color("12:45a"), "0x000000");
    assert_eq!(sanitize_color("ａｂｃｄｅｆ"), "0x000000");
    assert_eq!(sanitize_color("\u{3000}abcdef\u{a0}"), "0xabcdef");
}

#[test]
fn scale_filters_follow_the_preset_and_mode() {
    assert_eq!(
        build_scale_filter("original", "fill", false, "").unwrap(),
        "crop=trunc(iw/2)*2:trunc(ih/2)*2:0:0"
    );
    assert_eq!(
        build_scale_filter("half", "whatever", true, "").unwrap(),
        "scale=trunc(iw/4)*2:trunc(ih/4)*2"
    );
    assert_eq!(
        build_scale_filter("hd", "fill", false, "").unwrap(),
        "scale=1920:1080:force_original_aspect_ratio=increase,crop=1920:1080"
    );
    assert_eq!(
        build_scale_filter("720p", "fit", true, "#ffffff").unwrap(),
        "scale=1280:720:force_original_aspect_ratio=decrease,pad=1280:720:(ow-iw)/2:(oh-ih)/2:0xffffff"
    );
    assert_eq!(
        build_scale_filter("square512", "fit", false, "#ffffff").unwrap(),
        "scale=512:512:force_original_aspect_ratio=decrease:force_divisible_by=2"
    );
    assert_eq!(
        build_scale_filter("hd", "stretch", false, "").unwrap_err(),
        "Invalid resize_mode: stretch"
    );
    assert_eq!(
        build_scale_filter("4k", "fill", false, "").unwrap_err(),
        "Invalid size_preset: 4k"
    );
}

#[test]
fn a_pad_colour_cannot_inject_filter_syntax() {
    let f = build_scale_filter("hd", "fit", true, "000000,drawtext=text=x").unwrap();
    assert!(f.ends_with(":0x000000"), "{}", f);
}

#[test]
fn recording_regions_are_checked() {
    assert_eq!(recording_region(-1440, 25, 800, 600).unwrap(), "-1440,25,800,600");
    assert_eq!(recording_region(0, 0, 16384, 1).unwrap(), "0,0,16384,1");
    assert_eq!(recording_region(0, 0, 0, 10).unwrap_err(), "Invalid recording region");
    assert_eq!(recording_region(0, 0, 10, 16385).unwrap_err(), "Invalid recording region");
    assert_eq!(recording_region(0, 0, -5, 10).unwrap_err(), "Invalid recording region");
    assert_eq!(
        recording_args("1,2,3,4", "/tmp/rec.mov"),
        vec!["-v", "-x", "-r", "-R", "1,2,3,4", "/tmp/rec.mov"]
    );
    assert_eq!(recording_file_name("20260101-120000"), "rec-20260101-120000.mov");
}

#[test]
fn only_old_raw_recordings_are_cleaned_up() {
    let keep = "/tmp/flashcap/rec-2.mov";
    assert!(stale_recording("/tmp/flashcap/rec-1.mov", keep));
    assert!(!stale_recording(keep, keep));
    assert!(!stale_recording("/tmp/flashcap/rec-1.mp4", keep));
    assert!(!stale_recording("/tmp/flashcap/flashcap-1.mov", keep));
    assert!(!stale_recording("/tmp/flashcap/rec-1.MOV", keep));
}

#[test]
fn binaries_are_looked_for_in_the_usual_places() {
    assert_eq!(
        binary_candidates("ffmpeg"),
        vec!["/opt/homebrew/bin/ffmpeg", "/usr/local/bin/ffmpeg", "/opt/local/bin/ffmpeg"]
    );
}

#[test]
fn exports_check_format_and_build_arguments() {
    assert_eq!(export_extension("mp4").unwrap(), "mp4");
    assert_eq!(export_extension("gif").unwrap(), "gif");
    assert_eq!(export_extension("webm").unwrap_err(), "Invalid format: webm");
    assert_eq!(
        export_filter("half", "fit", false, "").unwrap(),
        "scale=trunc(iw/4)*2:trunc(ih/4)*2,setsar=1"
    );
    assert_eq!(gif_fps(0), 1);
    assert_eq!(gif_fps(30), 30);
    assert_eq!(gif_fps(120), 50);
    assert_eq!(
        mp4_args("1.000", "2.500", "/in.mov", "vf", "/out.mp4"),
        vec![
            "-y", "-ss", "1.000", "-t", "2.500", "-i", "/in.mov", "-vf", "vf", "-c:v", "libx264",
            "-crf", "20", "-preset", "veryfast", "-pix_fmt", "yuv420p", "-movflags", "+faststart",
            "-an", "/out.mp4"
        ]
    );
    assert_eq!(
        gif_palette_args("0.000", "1.000", "/in.mov", "vf", 15, "/p.png"),
        vec![
            "-y", "-ss", "0.000", "-t", "1.000", "-i", "/in.mov", "-vf",
            "vf,fps=15,palettegen=stats_mode=diff", "-update", "1", "-frames:v", "1", "/p.png"
        ]
    );
    assert_eq!(
        gif_encode_args("0.000", "1.000", "/in.mov", "/p.png", "vf", 15, "/o.gif"),
        vec![
            "-y", "-ss", "0.000", "-t", "1.000", "-i", "/in.mov", "-i", "/p.png", "-lavfi",
            "vf,fps=15[x];[x][1:v]paletteuse=dither=bayer:bayer_scale=3", "/o.gif"
        ]
    );
    assert_eq!(export_file_name("20260101-120000-123", "gif"), "flashcap-20260101-120000-123.gif");
    assert_eq!(palette_file_name(42, "120000123"), "palette-42-120000123.png");
    assert!(input_in_working_directory("/tmp/flashcap/rec-1.mov", "/tmp/flashcap").is_ok());
    assert_eq!(
        input_in_working_directory("/tmp/other/rec-1.mov", "/tmp/flashcap").unwrap_err(),
        "Input video is outside the working directory"
    );
}

#[test]
fn ffmpeg_failures_report_the_last_lines() {
    assert_eq!(ffmpeg_failure("a\nb\r\nc\n"), "ffmpeg failed:\na\nb\nc");
    let many: String = (1..=20).map(|i| format!("line {}\n", i)).collect();
    let expected: Vec<String> = (9..=20).map(|i| format!("line {}", i)).collect();
    assert_eq!(ffmpeg_failure(&many), format!("ffmpeg failed:\n{}", expected.join("\n")));
    assert_eq!(ffmpeg_failure(""), "ffmpeg failed:\n");
}

#[test]
fn lines_are_split_as_str_lines_splits_them() {
    assert_eq!(lines_of("foo\nbar\n\r\nbaz\r"), vec!["foo", "bar", "", "baz\r"]);
    assert_eq!(lines_of(""), Vec::<String>::new());
    assert_eq!(lines_of("a\n"), vec!["a"]);
    assert_eq!(lines_of("\n"), vec![""]);
    assert_eq!(lines_of("a\r\nb"), vec!["a", "b"]);
    assert_eq!(lines_of("a\rb\n"), vec!["a\rb"]);
    for text in ["x\n\ny", "\r\n\r\n", "tail\r", "no newline"] {
        assert_eq!(lines_of(text), text.lines().collect::<Vec<_>>());
    }
}
