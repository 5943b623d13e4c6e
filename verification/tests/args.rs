use flashcap::args::{
    collect_image_args, image_args_for_startup, is_capture_arg, is_capture_url,
    is_supported_image_path, supported_image_extensions,
};

#[test]
fn the_capture_url_is_not_a_capture_request_like_the_flag() {
    assert!(is_capture_arg("--capture"));
    assert!(!is_capture_arg("flashcap://capture"));
    assert!(!is_capture_arg("flashcap://capture/"));

    assert!(is_capture_url("flashcap://capture"));
    assert!(is_capture_url("flashcap://capture/"));
    assert!(!is_capture_url("--capture"));
    assert!(!is_capture_url("flashcap://ocr"));
    assert!(!is_capture_url("https://capture"));
    assert!(!is_capture_url("/tmp/capture.png"));

    assert!(image_args_for_startup(vec!["flashcap://capture".to_string()], vec![false]).is_empty());
}

#[test]
fn only_supported_image_extensions_are_opened() {
    assert!(is_supported_image_path("/tmp/a.png"));
    assert!(is_supported_image_path("/tmp/a.JPEG"));
    assert!(is_supported_image_path("/tmp/a.heic"));
    assert!(!is_supported_image_path("/tmp/a.pdf"));
    assert!(!is_supported_image_path("/tmp/png"));
}

#[test]
fn capture_flag_wins_over_image_arguments_on_cold_start() {
    let path = "/tmp/precedence/shot.png".to_string();

    let with_capture =
        image_args_for_startup(vec!["--capture".to_string(), path.clone()], vec![false, true]);
    let with_capture_url = image_args_for_startup(
        vec!["flashcap://capture".to_string(), path.clone()],
        vec![false, true],
    );
    let without_capture = image_args_for_startup(vec![path.clone()], vec![true]);

    assert!(
        with_capture.is_empty(),
        "--capture と同時に画像を開こうとしている: {with_capture:?}"
    );
    assert!(
        with_capture_url.is_empty(),
        "flashcap://capture と同時に画像を開こうとしている: {with_capture_url:?}"
    );
    assert_eq!(without_capture, vec![path]);
}

#[test]
fn command_line_arguments_yield_only_existing_images() {
    let image = "/tmp/args/shot.png".to_string();
    let document = "/tmp/args/note.pdf".to_string();
    let missing = "/tmp/args/gone.png".to_string();

    let picked = collect_image_args(
        vec!["--capture".to_string(), image.clone(), document, missing],
        vec![false, true, true, false],
    );

    assert_eq!(picked, vec![image]);
}

#[test]
fn the_supported_extensions_are_listed_in_order() {
    assert_eq!(
        supported_image_extensions(),
        vec!["png", "jpg", "jpeg", "gif", "bmp", "webp", "tiff", "tif", "heic", "heif"]
    );
}

#[test]
fn odd_paths_have_no_supported_extension() {
    assert!(!is_supported_image_path("/tmp/.png"));
    assert!(!is_supported_image_path(""));
    assert!(is_supported_image_path("relative/photo.TiF"));
    assert!(is_supported_image_path("/tmp/a.b.webp"));
}
