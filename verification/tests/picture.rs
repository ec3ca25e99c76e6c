use teil_ing::commands::{capture_decoded, native_captured, NativeCapture};
use teil_ing::picture::{encode_png, name_png_error, Picture};

fn checkers() -> Picture {
    Picture {
        width: 2,
        height: 2,
        pixels: vec![255, 0, 0, 255, 0, 255, 0, 128, 0, 0, 255, 0, 9, 8, 7, 6],
    }
}

#[test]
fn encoded_pictures_are_png_files() {
    let png = encode_png(&checkers()).unwrap();
    assert_eq!(&png[..8], &[0x89, b'P', b'N', b'G', 0x0D, 0x0A, 0x1A, 0x0A]);
}

#[test]
fn a_png_file_decodes_to_the_picture_it_was_made_from() {
    let png = encode_png(&checkers()).unwrap();
    match native_captured(Ok(Some(png.clone())), true) {
        NativeCapture::Upload { image, png: kept } => {
            assert_eq!(image, checkers());
            assert_eq!(kept, png);
        }
        other => panic!("{other:?}"),
    }
}

#[test]
fn a_file_that_is_no_image_is_a_failed_capture() {
    match native_captured(Ok(Some(vec![1, 2, 3, 4])), true) {
        NativeCapture::Failed(message) => assert!(message.starts_with("Capture failed: ")),
        other => panic!("{other:?}"),
    }
}

#[test]
fn a_decoded_capture_goes_to_the_upload() {
    let r = capture_decoded(Ok(checkers()), vec![1]);
    assert_eq!(r, NativeCapture::Upload { image: checkers(), png: vec![1] });
    let r = capture_decoded(Err("broken".to_string()), vec![1]);
    assert_eq!(r, NativeCapture::Failed("Capture failed: broken".to_string()));
}

#[test]
fn a_picture_without_pixels_cannot_be_encoded() {
    let empty = Picture { width: 0, height: 0, pixels: vec![] };
    let error = encode_png(&empty).unwrap_err();
    assert!(error.starts_with("PNG encode failed: "));
}

#[test]
fn encoding_errors_are_named() {
    assert_eq!(name_png_error(Ok(vec![1, 2])), Ok(vec![1, 2]));
    assert_eq!(
        name_png_error(Err("disk".to_string())),
        Err("PNG encode failed: disk".to_string())
    );
}

#[test]
fn pictures_are_copied_whole() {
    assert_eq!(checkers().copy(), checkers());
}
