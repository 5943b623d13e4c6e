use base64::Engine;
use flashcap::args::supported_image_extensions;
use flashcap::images::{
    capture_png_bytes, captured_image_size, converted_png_size, encode_for_target_format, heic_path, heic_result, image_result_from_bytes,
    may_write, ocr_input, pasted_image_bytes, prepare_image_write, ImageWrite,
};

fn b64(bytes: &[u8]) -> String {
    base64::engine::general_purpose::STANDARD.encode(bytes)
}

fn tiny_png() -> Vec<u8> {
    let img = image::DynamicImage::ImageRgba8(image::RgbaImage::from_pixel(
        1,
        1,
        image::Rgba([1, 2, 3, 255]),
    ));
    let mut out = std::io::Cursor::new(Vec::new());
    img.write_to(&mut out, image::ImageFormat::Png).unwrap();
    out.into_inner()
}

fn written(r: Result<ImageWrite, String>) -> Vec<u8> {
    match r {
        Ok(ImageWrite::Bytes(b)) => b,
        other => panic!("unexpected result: {:?}", other),
    }
}

#[test]
fn saving_to_a_jpeg_path_writes_jpeg_bytes() {
    let bytes = written(encode_for_target_format("/tmp/encode-jpeg/photo.jpg", tiny_png(), true));
    assert_eq!(
        image::guess_format(&bytes).unwrap(),
        image::ImageFormat::Jpeg
    );
}

#[test]
fn saving_to_a_png_path_keeps_the_bytes_untouched() {
    let png = tiny_png();
    assert_eq!(
        written(encode_for_target_format("/tmp/encode-png/shot.png", png.clone(), true)),
        png,
        "PNG は詰め直さずそのまま書く"
    );
}

#[test]
fn every_openable_extension_can_be_encoded() {
    for ext in supported_image_extensions() {
        if ext == "heic" || ext == "heif" {
            continue;
        }
        let target = format!("/tmp/encode-openable/photo.{}", ext);
        let bytes = match encode_for_target_format(&target, tiny_png(), true) {
            Ok(ImageWrite::Bytes(b)) => b,
            other => panic!("{} を書き戻せない: {:?}", ext, other),
        };
        let expected = image::ImageFormat::from_extension(ext).unwrap();
        assert_eq!(
            image::guess_format(&bytes).unwrap(),
            expected,
            "{} の中身が拡張子と食い違う",
            ext
        );
    }
}

#[test]
fn saving_to_an_unknown_extension_is_refused() {
    let err = encode_for_target_format("/tmp/encode-unknown/image.xyz", tiny_png(), true)
        .unwrap_err();
    assert!(err.contains("not supported"), "{}", err);
    assert_eq!(
        err,
        "Saving as 'xyz' is not supported (copy the image or save it as PNG instead)"
    );
}

#[test]
fn saving_a_grayscale_image_to_a_lossless_format_succeeds() {
    let gray =
        image::DynamicImage::ImageLuma8(image::GrayImage::from_pixel(1, 1, image::Luma([128])));
    let mut png = std::io::Cursor::new(Vec::new());
    gray.write_to(&mut png, image::ImageFormat::Png).unwrap();

    let bytes = written(encode_for_target_format("/tmp/encode-gray/photo.webp", png.into_inner(), true));
    assert_eq!(
        image::guess_format(&bytes).unwrap(),
        image::ImageFormat::WebP
    );
}

#[test]
fn heic_is_refused_instead_of_being_written_as_png() {
    let err = encode_for_target_format("C:\\photo.heic", Vec::new(), false).unwrap_err();
    assert!(err.contains("only supported on macOS"), "{}", err);
}

#[test]
fn heic_is_handed_to_the_system_converter_on_macos() {
    match encode_for_target_format("/tmp/photo.HEIF", vec![1, 2, 3], true) {
        Ok(ImageWrite::ConvertToHeic(b)) => assert_eq!(b, vec![1, 2, 3]),
        other => panic!("unexpected result: {:?}", other),
    }
}

#[test]
fn a_file_without_extension_is_written_as_png() {
    assert_eq!(written(encode_for_target_format("/tmp/shot", vec![9], true)), vec![9]);
}

#[test]
fn a_broken_png_cannot_be_reencoded() {
    let err = encode_for_target_format("/tmp/photo.jpg", vec![1, 2, 3], true).unwrap_err();
    assert!(err.starts_with("Failed to decode image: "), "{}", err);
}

#[test]
fn write_image_rejects_paths_outside_the_save_dir() {
    let err = prepare_image_write(
        "/tmp/write-outside/inner",
        &vec![],
        "/tmp/write-outside/other/x.png",
        &b64(b"png"),
        true,
    )
    .unwrap_err();
    assert!(err.contains("outside the save directory"), "{}", err);
    assert_eq!(
        err,
        "Path '/tmp/write-outside/other/x.png' is outside the save directory '/tmp/write-outside/inner'"
    );
}

#[test]
fn write_image_does_not_open_the_directory_of_an_opened_file() {
    let opened = vec!["/tmp/write-opened-sibling/pictures/photo.png".to_string()];
    let err = prepare_image_write(
        "/tmp/write-opened-sibling/save",
        &opened,
        "/tmp/write-opened-sibling/pictures/other.png",
        &b64(b"annotated"),
        true,
    )
    .unwrap_err();
    assert!(err.contains("outside the save directory"), "{}", err);
}

#[test]
fn write_image_overwrites_a_file_the_user_opened_outside_the_save_dir() {
    let opened = vec!["/tmp/write-opened/pictures/photo.png".to_string()];
    let bytes = written(prepare_image_write(
        "/tmp/write-opened/save",
        &opened,
        "/tmp/write-opened/pictures/photo.png",
        &b64(b"annotated"),
        true,
    ));
    assert_eq!(bytes, b"annotated");
}

#[test]
fn write_image_writes_inside_the_save_dir() {
    let bytes = written(prepare_image_write(
        "/tmp/write-inside",
        &vec![],
        "/tmp/write-inside/flashcap-20260820-000001.png",
        &b64(b"first"),
        true,
    ));
    assert_eq!(bytes, b"first");
    assert!(may_write("/tmp/write-inside", &vec![], "/tmp/write-inside/sub/a.png"));
    assert!(!may_write("/tmp/write-inside", &vec![], "/tmp/write-insider/a.png"));
}

#[test]
fn undecodable_base64_is_refused() {
    let err =
        prepare_image_write("/tmp/w", &vec![], "/tmp/w/a.png", "not base64!", true).unwrap_err();
    assert!(err.starts_with("Failed to decode base64: "), "{}", err);
    assert!(pasted_image_bytes("###").unwrap_err().starts_with("Failed to decode base64: "));
    assert!(capture_png_bytes("###").unwrap_err().starts_with("Failed to copy the image: "));
    assert_eq!(pasted_image_bytes(&b64(b"abc")).unwrap(), b"abc");
    assert_eq!(capture_png_bytes(&b64(b"xyz")).unwrap(), b"xyz");
}

#[test]
fn an_opened_png_is_passed_on_unchanged() {
    let png = tiny_png();
    let r = image_result_from_bytes("/tmp/a.png".to_string(), png.clone()).unwrap();
    assert_eq!((r.width, r.height), (1, 1));
    assert_eq!(r.data, b64(&png));
    assert_eq!(r.file_path, "/tmp/a.png");
}

#[test]
fn an_opened_jpeg_is_reencoded_as_png() {
    let jpeg = written(encode_for_target_format("/tmp/a.jpg", tiny_png(), true));
    let r = image_result_from_bytes("/tmp/a.jpg".to_string(), jpeg).unwrap();
    let png = base64::engine::general_purpose::STANDARD.decode(&r.data).unwrap();
    assert_eq!(image::guess_format(&png).unwrap(), image::ImageFormat::Png);
    assert_eq!((r.width, r.height), (1, 1));
}

#[test]
fn an_unreadable_image_is_refused() {
    let err = image_result_from_bytes("/tmp/a.png".to_string(), vec![0, 1, 2]).unwrap_err();
    assert!(err.starts_with("Failed to decode image: "), "{}", err);
}

#[test]
fn heic_paths_are_recognised_in_any_case() {
    assert!(heic_path("/tmp/a.HEIC"));
    assert!(heic_path("/tmp/a.heif"));
    assert!(!heic_path("/tmp/a.png"));
    let r = heic_result("/tmp/a.heic".to_string(), &vec![1, 2], 3, 4);
    assert_eq!((r.width, r.height), (3, 4));
    assert_eq!(r.data, b64(&[1, 2]));
}

#[test]
fn ocr_input_gives_the_image_size() {
    let png = tiny_png();
    let (bytes, w, h) = ocr_input(&b64(&png)).unwrap();
    assert_eq!((w, h), (1, 1));
    assert_eq!(bytes, png);
    assert!(ocr_input("@@").unwrap_err().starts_with("Failed to decode base64: "));
    assert!(ocr_input(&b64(b"nope")).unwrap_err().starts_with("Failed to decode image: "));
}

#[test]
fn system_made_pngs_give_their_size() {
    assert_eq!(captured_image_size(&tiny_png()), Ok((1, 1)));
    assert_eq!(converted_png_size(&tiny_png()), Ok((1, 1)));
    let e = captured_image_size(b"not an image").unwrap_err();
    assert!(e.starts_with("Failed to decode image: "), "{}", e);
    let e = converted_png_size(b"not an image").unwrap_err();
    assert!(e.starts_with("Failed to decode converted PNG: "), "{}", e);
}

#[test]
fn an_opened_image_may_be_written_wherever_it_lies() {
    let opened = vec!["/pictures/photo.png".to_string()];
    assert!(may_write("/save", &opened, "/pictures/photo.png"));
    assert!(may_write("/save", &opened, "/pictures//photo.png"));
    assert!(!may_write("/save", &opened, "/pictures/other.png"));
}
