use flashcap::handshake::{CaptureKind, FrontendHandshake};
use flashcap::startup::{
    on_frontend_ready, on_opened_urls, on_second_instance, prepare_cold_start,
    shows_window_after_startup_timeout, LaunchAction, OpenedUrl,
};

#[test]
fn open_files_are_held_until_the_frontend_is_ready() {
    let mut handshake = FrontendHandshake::default();

    let immediate = handshake.request_open_files(vec!["/tmp/a.png".to_string()]);

    assert!(immediate.is_none(), "未 ready なのに即 emit しようとしている");
    let work = handshake.mark_ready();
    assert_eq!(work.files, vec!["/tmp/a.png".to_string()]);
    assert!(work.capture.is_none());
}

#[test]
fn open_files_go_straight_through_once_the_frontend_is_ready() {
    let mut handshake = FrontendHandshake::default();
    handshake.mark_ready();

    let immediate = handshake.request_open_files(vec!["/tmp/a.png".to_string()]);

    assert_eq!(immediate, Some(vec!["/tmp/a.png".to_string()]));
    assert!(handshake.mark_ready().files.is_empty(), "二重に配送されている");
}

#[test]
fn held_work_is_taken_exactly_once() {
    let mut handshake = FrontendHandshake::default();
    handshake.set_capture_pending();
    handshake.request_open_files(vec!["/tmp/a.png".to_string()]);
    handshake.request_open_files(vec!["/tmp/b.png".to_string()]);

    let first = handshake.mark_ready();
    let second = handshake.mark_ready();

    assert_eq!(
        first.files,
        vec!["/tmp/a.png".to_string(), "/tmp/b.png".to_string()]
    );
    assert_eq!(first.capture, Some(CaptureKind::Interactive));
    assert!(second.files.is_empty());
    assert!(second.capture.is_none());
}

#[test]
fn a_reactivate_before_ready_is_held_and_delivered_once() {
    let mut handshake = FrontendHandshake::default();

    let immediate = handshake.request_reactivate();
    let first = handshake.mark_ready();
    let second = handshake.mark_ready();

    assert!(!immediate);
    assert!(first.reactivate);
    assert!(!second.reactivate);
    assert!(handshake.request_reactivate());
    assert!(!handshake.mark_ready().reactivate, "二重に配送されている");
}

#[test]
fn a_held_capture_keeps_its_kind() {
    let mut handshake = FrontendHandshake::default();

    let immediate = handshake.request_capture(CaptureKind::Timer);

    assert!(!immediate, "未 ready なのに即 emit しようとしている");
    assert!(handshake.is_capture_pending());
    assert_eq!(handshake.mark_ready().capture, Some(CaptureKind::Timer));
    assert!(
        handshake.request_capture(CaptureKind::Interactive),
        "ready 後は即 emit する"
    );
    assert!(
        handshake.mark_ready().capture.is_none(),
        "ready 後の要求を預かっている"
    );
}

#[test]
fn pending_work_is_visible_to_the_startup_fallback() {
    let mut handshake = FrontendHandshake::default();
    assert!(!handshake.is_open_pending());

    handshake.request_open_files(vec!["/tmp/a.png".to_string()]);

    assert!(handshake.is_open_pending(), "預かり中が見えていない");
    handshake.mark_ready();
    assert!(!handshake.is_open_pending(), "取り出した後も残っている");
}

#[test]
fn capture_commands_name_the_front_end_commands() {
    assert_eq!(CaptureKind::Interactive.command(), "take_screenshot_interactive");
    assert_eq!(CaptureKind::Timer.command(), "take_screenshot_timer");
}

#[test]
fn a_later_capture_request_replaces_a_held_one() {
    let mut handshake = FrontendHandshake::default();
    handshake.request_capture(CaptureKind::Interactive);
    handshake.request_capture(CaptureKind::Timer);
    assert_eq!(handshake.mark_ready().capture, Some(CaptureKind::Timer));
    assert!(handshake.is_ready());
}

#[test]
fn the_ready_handler_starts_a_held_capture_without_showing_the_window() {
    let mut handshake = FrontendHandshake::default();
    handshake.request_capture(CaptureKind::Timer);
    handshake.request_reactivate();
    let effects = on_frontend_ready(&mut handshake, false);
    assert_eq!(effects.capture, Some(CaptureKind::Timer));
    assert!(!effects.show_main);
    assert!(!effects.reactivate);
    assert!(handshake.is_ready());
}

#[test]
fn the_ready_handler_shows_the_window_and_delivers_held_work() {
    let mut handshake = FrontendHandshake::default();
    handshake.request_open_files(vec!["/tmp/a.png".to_string()]);
    handshake.request_reactivate();
    let effects = on_frontend_ready(&mut handshake, false);
    assert_eq!(effects.open_files, vec!["/tmp/a.png".to_string()]);
    assert!(effects.show_main);
    assert!(effects.reactivate);
}

#[test]
fn the_ready_handler_keeps_the_window_hidden_during_headless_ocr() {
    let mut handshake = FrontendHandshake::default();
    handshake.request_reactivate();
    let effects = on_frontend_ready(&mut handshake, true);
    assert!(!effects.show_main);
    assert!(!effects.reactivate);
}

#[test]
fn the_startup_fallback_stays_hidden_while_work_is_held() {
    let mut handshake = FrontendHandshake::default();
    assert!(shows_window_after_startup_timeout(&handshake, false));
    assert!(!shows_window_after_startup_timeout(&handshake, true));
    handshake.set_capture_pending();
    assert!(!shows_window_after_startup_timeout(&handshake, false));
    handshake.mark_ready();
    assert!(!shows_window_after_startup_timeout(&handshake, false));
}

#[test]
fn a_cold_start_with_capture_reserves_it_and_opens_nothing() {
    let mut handshake = FrontendHandshake::default();
    let argv = vec![
        "flashcap".to_string(),
        "--capture".to_string(),
        "/tmp/shot.png".to_string(),
    ];
    let now = prepare_cold_start(&mut handshake, &argv, &vec![true, false, true]);
    assert!(now.is_none());
    assert!(handshake.is_capture_pending());
    assert!(!handshake.is_open_pending());
}

#[test]
fn a_cold_start_with_images_holds_them() {
    let mut handshake = FrontendHandshake::default();
    let argv = vec!["flashcap".to_string(), "/tmp/shot.png".to_string()];
    let now = prepare_cold_start(&mut handshake, &argv, &vec![true, true]);
    assert!(now.is_none());
    assert!(handshake.is_open_pending());
    assert_eq!(handshake.mark_ready().files, vec!["/tmp/shot.png".to_string()]);
}

#[test]
fn a_cold_start_with_the_capture_url_only_highlights() {
    let mut handshake = FrontendHandshake::default();
    let argv = vec!["flashcap".to_string(), "flashcap://capture".to_string()];
    prepare_cold_start(&mut handshake, &argv, &vec![true, false]);
    assert!(!handshake.is_capture_pending());
    let work = handshake.mark_ready();
    assert!(work.reactivate);
    assert!(work.capture.is_none());
}

#[test]
fn a_second_launch_routes_its_arguments() {
    let mut handshake = FrontendHandshake::default();
    handshake.mark_ready();
    let ocr = vec!["flashcap".to_string(), "--capture-screen-text".to_string()];
    assert!(matches!(
        on_second_instance(&mut handshake, &ocr, &vec![true, false], false),
        LaunchAction::HeadlessOcr
    ));
    let capture = vec!["flashcap".to_string(), "--capture".to_string()];
    assert!(matches!(
        on_second_instance(&mut handshake, &capture, &vec![true, false], false),
        LaunchAction::EmitCapture(CaptureKind::Interactive)
    ));
    let url = vec!["flashcap".to_string(), "flashcap://capture".to_string()];
    assert!(matches!(
        on_second_instance(&mut handshake, &url, &vec![true, false], false),
        LaunchAction::ShowAndReactivate
    ));
    assert!(matches!(
        on_second_instance(&mut handshake, &url, &vec![true, false], true),
        LaunchAction::Nothing
    ));
    let files = vec!["flashcap".to_string(), "/tmp/a.png".to_string(), "/tmp/gone.png".to_string()];
    match on_second_instance(&mut handshake, &files, &vec![true, true, false], false) {
        LaunchAction::ShowAndOpen(f) => assert_eq!(f, vec!["/tmp/a.png".to_string()]),
        other => panic!("unexpected action: {:?}", other),
    }
    let nothing = vec!["flashcap".to_string()];
    assert!(matches!(
        on_second_instance(&mut handshake, &nothing, &vec![true], false),
        LaunchAction::ShowAndReactivate
    ));
}

#[test]
fn a_second_launch_before_ready_holds_its_work() {
    let mut handshake = FrontendHandshake::default();
    let files = vec!["flashcap".to_string(), "/tmp/a.png".to_string()];
    assert!(matches!(
        on_second_instance(&mut handshake, &files, &vec![true, true], false),
        LaunchAction::ShowOnly
    ));
    let capture = vec!["flashcap".to_string(), "--capture".to_string()];
    assert!(matches!(
        on_second_instance(&mut handshake, &capture, &vec![true, false], false),
        LaunchAction::Nothing
    ));
    let work = handshake.mark_ready();
    assert_eq!(work.files, vec!["/tmp/a.png".to_string()]);
    assert_eq!(work.capture, Some(CaptureKind::Interactive));
}

fn url(scheme: &str, host: Option<&str>, file_path: Option<&str>) -> OpenedUrl {
    OpenedUrl {
        scheme: scheme.to_string(),
        host: host.map(|h| h.to_string()),
        file_path: file_path.map(|p| p.to_string()),
    }
}

#[test]
fn opened_urls_run_their_first_command() {
    let mut handshake = FrontendHandshake::default();
    let urls = vec![
        url("file", None, Some("/tmp/a.png")),
        url("flashcap", Some("ocr"), None),
        url("flashcap", Some("capture"), None),
    ];
    assert!(matches!(
        on_opened_urls(&mut handshake, &urls),
        LaunchAction::HeadlessOcr
    ));
    let urls = vec![url("flashcap", Some("capture"), None)];
    assert!(matches!(on_opened_urls(&mut handshake, &urls), LaunchAction::Nothing));
    assert!(handshake.is_capture_pending());
}

#[test]
fn opened_files_keep_only_images() {
    let mut handshake = FrontendHandshake::default();
    handshake.mark_ready();
    let urls = vec![
        url("file", None, Some("/tmp/a.PNG")),
        url("file", None, Some("/tmp/b.pdf")),
        url("https", Some("example.com"), None),
        url("flashcap", Some("unknown"), None),
    ];
    match on_opened_urls(&mut handshake, &urls) {
        LaunchAction::ShowAndOpen(f) => assert_eq!(f, vec!["/tmp/a.PNG".to_string()]),
        other => panic!("unexpected action: {:?}", other),
    }
}
