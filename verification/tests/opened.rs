use flashcap::opened::{OpenedImages, OPENED_IMAGES_LIMIT};

#[test]
fn opened_images_dedupes_and_keeps_the_newest_within_the_limit() {
    let dir = "/tmp/opened-images";
    let mut opened = OpenedImages::default();
    let first = format!("{}/first.png", dir);
    opened.remember(first.clone());
    opened.remember(first.clone());
    assert_eq!(opened.snapshot(), vec![first.clone()]);

    for i in 0..OPENED_IMAGES_LIMIT {
        opened.remember(format!("{}/f{}.png", dir, i));
    }
    let snapshot = opened.snapshot();
    assert_eq!(snapshot.len(), OPENED_IMAGES_LIMIT);
    assert!(
        !snapshot.contains(&first),
        "上限を超えた分は古い方から落ちる"
    );
    assert!(snapshot.contains(&format!("{}/f{}.png", dir, OPENED_IMAGES_LIMIT - 1)));
}

#[test]
fn remembering_again_keeps_the_order() {
    let mut opened = OpenedImages::default();
    opened.remember("/a.png".to_string());
    opened.remember("/b.png".to_string());
    opened.remember("/a.png".to_string());
    assert_eq!(opened.snapshot(), vec!["/a.png".to_string(), "/b.png".to_string()]);
}

#[test]
fn paths_are_compared_as_paths() {
    let mut opened = OpenedImages::default();
    opened.remember("/d/a.png".to_string());
    opened.remember("/d//a.png".to_string());
    opened.remember("/d/./a.png".to_string());
    assert_eq!(opened.snapshot(), vec!["/d/a.png".to_string()]);
}

#[test]
fn distinct_images_are_kept_in_the_order_they_were_opened() {
    let mut opened = OpenedImages::default();
    let paths: Vec<String> = (0..OPENED_IMAGES_LIMIT).map(|i| format!("/p/{}.png", i)).collect();
    for p in &paths {
        opened.remember(p.clone());
    }
    assert_eq!(opened.snapshot(), paths);
    assert_eq!(opened.snapshot(), paths);
}
