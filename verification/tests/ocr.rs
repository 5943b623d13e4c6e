use flashcap::ocr::{
    after_headless_ocr, copy_text_notice, notification_script, recognized_text, recognizer_args,
    OcrFollowUp,
};

#[test]
fn notification_text_is_escaped_for_applescript() {
    assert_eq!(
        notification_script("FlashCap", "Copied 3 characters"),
        "display notification \"Copied 3 characters\" with title \"FlashCap\""
    );
    assert_eq!(
        notification_script("a\"b", "c\\d\""),
        "display notification \"c\\\\d\\\"\" with title \"a\\\"b\""
    );
}

#[test]
fn the_recogniser_gets_the_size_and_region() {
    assert_eq!(
        recognizer_args("/r/ocr.swift", 640, 480, None),
        vec!["/r/ocr.swift", "--size", "640,480"]
    );
    assert_eq!(
        recognizer_args("/r/ocr.swift", 1, 2, Some("0,0,1,1")),
        vec!["/r/ocr.swift", "--size", "1,2", "--region", "0,0,1,1"]
    );
    assert_eq!(recognized_text("  hello\n\n"), "hello");
}

#[test]
fn headless_ocr_reports_its_outcome() {
    match after_headless_ocr(Ok("日本語 text".to_string())) {
        OcrFollowUp::CopyText { text, chars } => {
            assert_eq!(text, "日本語 text");
            assert_eq!(chars, 8);
        }
        other => panic!("unexpected: {:?}", other),
    }
    match after_headless_ocr(Ok(String::new())) {
        OcrFollowUp::Notify(m) => assert_eq!(m, "No text recognized"),
        other => panic!("unexpected: {:?}", other),
    }
    match after_headless_ocr(Err("boom".to_string())) {
        OcrFollowUp::Notify(m) => assert_eq!(m, "OCR failed: boom"),
        other => panic!("unexpected: {:?}", other),
    }
    assert!(matches!(
        after_headless_ocr(Err("Screenshot was cancelled".to_string())),
        OcrFollowUp::Silent
    ));
    assert_eq!(copy_text_notice(12, &Ok(())), "Copied 12 characters");
    assert_eq!(copy_text_notice(0, &Err("no pbcopy".to_string())), "Failed to copy: no pbcopy");
}
