use flashcap::handshake::CaptureKind;
use flashcap::menu_bar::{
    menu_entries, menu_event_action, menu_outcome, shows_main_after_ocr, MenuAction, MenuOutcome,
};

#[test]
fn menu_ids_map_back_to_their_action() {
    for action in MenuAction::all() {
        assert_eq!(MenuAction::from_menu_id(action.menu_id()), Some(action));
    }
    assert_eq!(MenuAction::from_menu_id("preferences"), None);
}

#[test]
fn timer_labels_follow_the_timer_delay() {
    assert_eq!(
        MenuAction::CaptureWithTimer.label(10),
        "Capture Screenshot with Timer (10s)"
    );
    assert_eq!(
        MenuAction::RecordVideoWithTimer.label(3),
        "Record Video with Timer (3s)"
    );
    assert_eq!(MenuAction::Capture.label(10), "Capture Screenshot");
}

#[test]
fn recording_and_ocr_are_offered_on_macos_only() {
    let mac: Vec<MenuAction> = menu_entries(5, true).into_iter().map(|e| e.action).collect();
    assert_eq!(mac, MenuAction::all());
    let other: Vec<MenuAction> = menu_entries(5, false).into_iter().map(|e| e.action).collect();
    assert_eq!(
        other,
        vec![
            MenuAction::OpenMainWindow,
            MenuAction::Capture,
            MenuAction::CaptureWithTimer,
            MenuAction::Quit
        ]
    );
    assert_eq!(menu_event_action("menu-bar-ocr", false), None);
    assert_eq!(menu_event_action("menu-bar-ocr", true), Some(MenuAction::CopyTextOnScreen));
}

#[test]
fn the_menu_has_its_labels_and_separators() {
    let entries = menu_entries(7, true);
    let labels: Vec<String> = entries.iter().map(|e| e.label.clone()).collect();
    assert_eq!(
        labels,
        vec![
            "Open FlashCap",
            "Capture Screenshot",
            "Capture Screenshot with Timer (7s)",
            "Record Video",
            "Record Video with Timer (7s)",
            "Copy Text on Screen (OCR)",
            "Quit FlashCap"
        ]
    );
    let separators: Vec<bool> = entries.iter().map(|e| e.separator_after).collect();
    assert_eq!(separators, vec![true, false, true, false, true, true, false]);
}

#[test]
fn clicks_follow_the_application_state() {
    assert_eq!(menu_outcome(MenuAction::Quit, false, true, true, true), MenuOutcome::Quit);
    assert_eq!(
        menu_outcome(MenuAction::Capture, false, false, false, false),
        MenuOutcome::RequestCapture(CaptureKind::Interactive)
    );
    assert_eq!(menu_outcome(MenuAction::RecordVideo, false, false, false, false), MenuOutcome::Ignore);
    assert_eq!(
        menu_outcome(MenuAction::CaptureWithTimer, true, true, false, false),
        MenuOutcome::ShowMainWindow
    );
    assert_eq!(
        menu_outcome(MenuAction::OpenMainWindow, true, false, true, false),
        MenuOutcome::CancelRegionSelection
    );
    assert_eq!(menu_outcome(MenuAction::Capture, true, false, true, false), MenuOutcome::Ignore);
    assert_eq!(menu_outcome(MenuAction::OpenMainWindow, true, false, false, true), MenuOutcome::Ignore);
    assert_eq!(
        menu_outcome(MenuAction::RecordVideoWithTimer, true, false, false, false),
        MenuOutcome::StartRecording { with_timer: true }
    );
    assert_eq!(
        menu_outcome(MenuAction::CopyTextOnScreen, true, false, false, false),
        MenuOutcome::CopyTextOnScreen
    );
    assert_eq!(
        menu_outcome(MenuAction::CaptureWithTimer, true, false, false, false),
        MenuOutcome::RequestCapture(CaptureKind::Timer)
    );
}

#[test]
fn the_main_window_returns_after_ocr_only_when_nothing_began() {
    assert!(shows_main_after_ocr(true, false, false, false));
    assert!(!shows_main_after_ocr(false, false, false, false));
    assert!(!shows_main_after_ocr(true, true, false, false));
    assert!(!shows_main_after_ocr(true, false, true, false));
    assert!(!shows_main_after_ocr(true, false, false, true));
}
