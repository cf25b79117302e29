use base64::Engine;
use image::DynamicImage;

use ow2_victory_counter::capture::{
    check_crop, decode_screenshot, preprocess, screenshot_payload_bounds, CaptureError,
};

#[test]
fn test_crop_validation() {
    let dummy_image = DynamicImage::new_rgb8(1920, 1080);

    let result = preprocess(dummy_image.clone(), (0, 0, 100, 100));
    assert!(result.is_ok());

    let result = preprocess(dummy_image.clone(), (1900, 1000, 100, 100));
    assert!(result.is_err());
}

#[test]
fn preprocess_cuts_the_requested_size() {
    let frame = DynamicImage::new_rgb8(1920, 1080);
    let cut = preprocess(frame, (10, 20, 300, 200)).unwrap();
    assert_eq!((cut.width(), cut.height()), (300, 200));
}

#[test]
fn crop_that_exactly_fills_the_frame_is_accepted() {
    assert_eq!(check_crop((0, 0, 1920, 1080), 1920, 1080), Ok(()));
    assert_eq!(check_crop((1820, 980, 100, 100), 1920, 1080), Ok(()));
}

#[test]
fn crop_past_an_edge_is_an_invalid_crop() {
    let e = check_crop((1900, 1000, 100, 100), 1920, 1080).unwrap_err();
    assert_eq!(
        e,
        CaptureError::InvalidCrop(
            "Crop region (100x100 at 1900,1000) exceeds image dimensions (1920x1080)".to_string()
        )
    );
    assert!(check_crop((0, 981, 10, 100), 1920, 1080).is_err());
    assert!(check_crop((1911, 0, 10, 10), 1920, 1080).is_err());
}

#[test]
fn crop_check_does_not_overflow() {
    assert!(check_crop((u32::MAX, 0, u32::MAX, 1), 1920, 1080).is_err());
}

#[test]
fn capture_error_messages() {
    assert_eq!(
        CaptureError::ObsConnection("refused".to_string()).message(),
        "OBS connection error: refused"
    );
    assert_eq!(CaptureError::ObsCapture("x".to_string()).message(), "OBS capture error: x");
    assert_eq!(CaptureError::Base64Decode("x".to_string()).message(), "Base64 decode error: x");
    assert_eq!(CaptureError::ImageDecode("x".to_string()).message(), "Image decode error: x");
    assert_eq!(
        CaptureError::InvalidCrop("x".to_string()).message(),
        "Invalid crop parameters: x"
    );
}

fn png_base64(width: u32, height: u32) -> String {
    let mut bytes: Vec<u8> = Vec::new();
    DynamicImage::new_rgb8(width, height)
        .write_to(&mut std::io::Cursor::new(&mut bytes), image::ImageFormat::Png)
        .unwrap();
    base64::engine::general_purpose::STANDARD.encode(bytes)
}

#[test]
fn decodes_bare_base64_png() {
    let img = decode_screenshot(&png_base64(4, 3)).unwrap();
    assert_eq!((img.width(), img.height()), (4, 3));
}

#[test]
fn decodes_data_url_png() {
    let text = format!("data:image/png;base64,{}", png_base64(2, 5));
    let img = decode_screenshot(&text).unwrap();
    assert_eq!((img.width(), img.height()), (2, 5));
}

#[test]
fn data_url_without_comma_is_rejected() {
    let e = decode_screenshot("data:image/png;base64").unwrap_err();
    assert_eq!(e, CaptureError::Base64Decode("Invalid data URL format".to_string()));
}

#[test]
fn bad_base64_is_a_base64_error() {
    let e = decode_screenshot("not base64!").unwrap_err();
    assert!(matches!(e, CaptureError::Base64Decode(_)));
}

#[test]
fn base64_of_non_png_is_an_image_error() {
    let e = decode_screenshot("aGVsbG8=").unwrap_err();
    assert!(matches!(e, CaptureError::ImageDecode(_)));
}

#[test]
fn payload_bounds_of_data_urls() {
    assert_eq!(screenshot_payload_bounds(b"abc"), Some((0, 3)));
    assert_eq!(screenshot_payload_bounds(b"data:x,QUJD"), Some((7, 11)));
    assert_eq!(screenshot_payload_bounds(b"data:x,QU,JD"), Some((7, 9)));
    assert_eq!(screenshot_payload_bounds(b"data:x,"), Some((7, 7)));
    assert_eq!(screenshot_payload_bounds(b"data:x"), None);
    assert_eq!(screenshot_payload_bounds(b"dat"), Some((0, 3)));
}
