use flashcap::capture::{
    after_reserve_attempt, ancestor_verdict, default_save_directory, distrust,
    exclude_shadow_setting, flashcap_temp_dir, is_capture_in_progress, is_working_directory,
    menu_bar_setting, pasted_image_path, purge_action, purge_failure, save_directory_choice,
    screencapture_args, screenshot_path, timer_delay_setting, workdir_name, AncestorVerdict,
    CaptureInProgress, MkdirOutcome, PurgeAction, ReserveStep, SaveDirectory,
};

#[test]
fn captures_in_progress_are_counted() {
    let mut captures = CaptureInProgress::default();
    assert!(!is_capture_in_progress(&captures));
    captures.start();
    captures.start();
    assert!(is_capture_in_progress(&captures));
    captures.finish();
    assert!(is_capture_in_progress(&captures));
    captures.finish();
    assert!(!is_capture_in_progress(&captures));
}

#[test]
fn settings_have_their_defaults() {
    assert_eq!(timer_delay_setting(None), 5);
    assert_eq!(timer_delay_setting(Some(10)), 10);
    assert_eq!(timer_delay_setting(Some(4_294_967_299)), 3);
    assert!(exclude_shadow_setting(None));
    assert!(!exclude_shadow_setting(Some(false)));
    assert!(!menu_bar_setting(None));
    assert!(menu_bar_setting(Some(true)));
}

#[test]
fn the_save_directory_setting_is_read() {
    assert!(matches!(save_directory_choice(None), SaveDirectory::Working));
    assert!(matches!(save_directory_choice(Some("tmp")), SaveDirectory::Working));
    assert!(matches!(
        save_directory_choice(Some("macos_default")),
        SaveDirectory::SystemScreenshots
    ));
    match save_directory_choice(Some("custom:/Users/me/Shots")) {
        SaveDirectory::Custom(p) => assert_eq!(p, "/Users/me/Shots"),
        other => panic!("unexpected: {:?}", other),
    }
    assert!(matches!(save_directory_choice(Some("elsewhere")), SaveDirectory::Working));
}

#[test]
fn paths_are_built_in_the_save_directory() {
    assert_eq!(flashcap_temp_dir("/var/folders/x/T"), "/var/folders/x/T/flashcap");
    assert_eq!(default_save_directory("/var/folders/x/T/"), "/var/folders/x/T/flashcap");
    assert_eq!(
        screenshot_path("/s", "20260101-120000"),
        "/s/flashcap-20260101-120000.png"
    );
    assert_eq!(
        pasted_image_path("/s", "20260101-120000"),
        "/s/flashcap-paste-20260101-120000.png"
    );
    assert!(is_working_directory("/tmp/flashcap/", "/tmp/flashcap"));
    assert!(!is_working_directory("/tmp/flashcap2", "/tmp/flashcap"));
}

#[test]
fn screencapture_gets_its_options() {
    assert_eq!(screencapture_args(false, None, "/s/a.png"), vec!["-i", "/s/a.png"]);
    assert_eq!(
        screencapture_args(true, Some(10), "/s/a.png"),
        vec!["-i", "-o", "-T", "10", "/s/a.png"]
    );
}

#[test]
fn a_root_owned_ancestor_is_trusted() {
    assert_eq!(ancestor_verdict(0o755, 0, 501), AncestorVerdict::Trusted);
    assert_eq!(ancestor_verdict(0o700, 501, 501), AncestorVerdict::Trusted);
}

#[test]
fn a_group_or_other_writable_ancestor_is_refused() {
    assert_eq!(ancestor_verdict(0o777, 501, 501), AncestorVerdict::WritableByOthers);
    assert_eq!(ancestor_verdict(0o1777, 0, 501), AncestorVerdict::WritableByOthers);
    let m = distrust(&AncestorVerdict::WritableByOthers, "/tmp", 0, "/tmp/flashcap");
    assert!(m.contains("writable by other accounts"), "{}", m);
    assert_eq!(
        m,
        "/tmp is writable by other accounts, so /tmp/flashcap cannot be trusted; refusing to store screen captures there (is TMPDIR set?)"
    );
}

#[test]
fn a_group_writable_ancestor_is_refused() {
    assert_eq!(ancestor_verdict(0o770, 501, 501), AncestorVerdict::WritableByOthers);
}

#[test]
fn rejects_an_ancestor_owned_by_someone_else() {
    assert_eq!(ancestor_verdict(0o755, 502, 501), AncestorVerdict::ForeignOwner);
    assert_eq!(
        distrust(&AncestorVerdict::ForeignOwner, "/var/x", 502, "/var/x/flashcap"),
        "/var/x is owned by uid 502 (neither root nor the current user), so /var/x/flashcap cannot be trusted; refusing to store screen captures there (is TMPDIR set?)"
    );
}

#[test]
fn symlinks_and_foreign_entries_are_purged() {
    assert_eq!(purge_action(false, false, 501, 501), PurgeAction::Keep);
    assert_eq!(purge_action(true, false, 501, 501), PurgeAction::RemoveFile);
    assert_eq!(purge_action(true, true, 502, 501), PurgeAction::RemoveFile);
    assert_eq!(purge_action(false, true, 502, 501), PurgeAction::RemoveDir);
    assert_eq!(purge_action(false, false, 502, 501), PurgeAction::RemoveFile);
    assert_eq!(
        purge_failure("/t/x", "denied", "/t"),
        "/t/x could not be removed (denied); refusing to use /t for screen captures"
    );
}

#[test]
fn workdirs_are_named_and_retried() {
    assert_eq!(workdir_name("heic", 123, 456), "heic-123-456");
    assert!(matches!(
        after_reserve_attempt(0, MkdirOutcome::Created, "ocr"),
        ReserveStep::Done
    ));
    assert!(matches!(
        after_reserve_attempt(14, MkdirOutcome::AlreadyExists, "ocr"),
        ReserveStep::Retry
    ));
    match after_reserve_attempt(15, MkdirOutcome::AlreadyExists, "ocr") {
        ReserveStep::Fail(m) => assert_eq!(m, "Failed to reserve a temp directory for ocr"),
        other => panic!("unexpected: {:?}", other),
    }
    match after_reserve_attempt(3, MkdirOutcome::Failed("EACCES".to_string()), "ocr") {
        ReserveStep::Fail(m) => assert_eq!(m, "Failed to create the temp directory: EACCES"),
        other => panic!("unexpected: {:?}", other),
    }
}
