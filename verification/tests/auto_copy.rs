use flashcap::auto_copy::{
    copy_is_current, copy_notice, is_latest_capture, next_capture_generation, start_copy,
    AutoCopyMode, CaptureGenerations,
};

#[test]
fn settings_round_trip() {
    for mode in [AutoCopyMode::Off, AutoCopyMode::Path, AutoCopyMode::Image] {
        assert_eq!(AutoCopyMode::from_setting(Some(mode.as_setting())), mode);
    }
}

#[test]
fn an_overtaken_capture_is_no_longer_the_latest() {
    let mut generations = CaptureGenerations::default();
    let first = next_capture_generation(&mut generations);
    assert!(is_latest_capture(&generations, first));
    let second = next_capture_generation(&mut generations);
    assert!(!is_latest_capture(&generations, first), "先の撮影のコピーは捨てる");
    assert!(is_latest_capture(&generations, second));
}

#[test]
fn missing_or_unknown_settings_do_not_copy() {
    assert_eq!(AutoCopyMode::from_setting(None), AutoCopyMode::Off);
    assert_eq!(
        AutoCopyMode::from_setting(Some("clipboard")),
        AutoCopyMode::Off
    );
    assert_eq!(AutoCopyMode::from_setting(Some("")), AutoCopyMode::Off);
}

#[test]
fn the_stored_values_match_the_front_end() {
    assert_eq!(AutoCopyMode::Off.as_setting(), "none");
    assert_eq!(AutoCopyMode::Path.as_setting(), "path");
    assert_eq!(AutoCopyMode::Image.as_setting(), "image");
}

#[test]
fn a_capture_without_copy_still_overtakes_an_earlier_copy() {
    let mut generations = CaptureGenerations::default();
    let job = start_copy(&mut generations, AutoCopyMode::Image).unwrap();
    assert!(job.with_image);
    assert!(copy_is_current(&generations, &job));
    assert!(start_copy(&mut generations, AutoCopyMode::Off).is_none());
    assert!(!copy_is_current(&generations, &job));
}

#[test]
fn copy_notices_say_what_was_copied() {
    let mut generations = CaptureGenerations::default();
    let image = start_copy(&mut generations, AutoCopyMode::Image).unwrap();
    let path = start_copy(&mut generations, AutoCopyMode::Path).unwrap();
    assert_eq!(copy_notice(&image, &Ok(())), "Copied the image to the clipboard");
    assert_eq!(copy_notice(&path, &Ok(())), "Copied the image path to the clipboard");
    assert_eq!(
        copy_notice(&image, &Err("busy".to_string())),
        "Failed to copy the image: busy"
    );
    assert_eq!(
        copy_notice(&path, &Err("busy".to_string())),
        "Failed to copy the image path: busy"
    );
}
