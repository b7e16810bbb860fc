use std::io::Cursor;

use dib_client::decimal::u8_decimal;
use dib_client::media::media_file_name;
use dib_client::media::prepare_media;
use dib_client::media::viewer_invocation;
use dib_client::media::HostPlatform;
use dib_client::media::MediaError;

#[test]
fn decimal_rendering() {
    assert_eq!(u8_decimal(0), "0");
    assert_eq!(u8_decimal(7), "7");
    assert_eq!(u8_decimal(10), "10");
    assert_eq!(u8_decimal(42), "42");
    assert_eq!(u8_decimal(99), "99");
    assert_eq!(u8_decimal(100), "100");
    assert_eq!(u8_decimal(255), "255");
}

#[test]
fn file_name_for_suffix() {
    assert_eq!(media_file_name(0), "image_0.png");
    assert_eq!(media_file_name(42), "image_42.png");
    assert_eq!(media_file_name(100), "image_100.png");
}

#[test]
fn undecodable_payload_is_a_decode_error() {
    let garbage = vec![0u8, 1, 2, 3, 4, 5];
    match prepare_media(&garbage) {
        Err(MediaError::Decode) => {}
        Ok(_) => panic!("garbage decoded"),
    }
}

#[test]
fn valid_png_yields_a_plan_in_range() {
    let image = image::DynamicImage::ImageRgba8(image::RgbaImage::new(2, 2));
    let mut bytes: Vec<u8> = Vec::new();
    image
        .write_to(&mut Cursor::new(&mut bytes), image::ImageFormat::Png)
        .expect("encoding a fresh image succeeds");

    let plan = prepare_media(&bytes).expect("a png payload decodes");
    let name = plan.file_name;
    let suffix = name
        .strip_prefix("image_")
        .and_then(|rest| rest.strip_suffix(".png"))
        .expect("name has the image_<n>.png shape");
    let n: u32 = suffix.parse().expect("suffix is a number");
    assert!(n <= 100);
}

#[test]
fn viewer_invocation_per_platform() {
    let (program, args) = viewer_invocation(HostPlatform::Windows, "p.png".to_string());
    assert_eq!(program, "cmd");
    assert_eq!(args, vec!["/C".to_string(), "p.png".to_string()]);

    let (program, args) = viewer_invocation(HostPlatform::MacOs, "p.png".to_string());
    assert_eq!(program, "open");
    assert_eq!(args, vec!["p.png".to_string()]);

    let (program, args) = viewer_invocation(HostPlatform::Linux, "p.png".to_string());
    assert_eq!(program, "xdg-open");
    assert_eq!(args, vec!["p.png".to_string()]);
}
