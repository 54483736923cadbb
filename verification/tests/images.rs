use doh::image_utils::{
    compress_image, get_mime_type, strip_exif, ImageProcessor, TranscodeError,
};

const PNG_1X1: [u8; 69] = [
    137, 80, 78, 71, 13, 10, 26, 10, 0, 0, 0, 13, 73, 72, 68, 82, 0, 0, 0, 1, 0, 0, 0, 1, 8, 2, 0,
    0, 0, 144, 119, 83, 222, 0, 0, 0, 12, 73, 68, 65, 84, 120, 156, 99, 248, 207, 192, 0, 0, 3, 1,
    1, 0, 201, 254, 146, 239, 0, 0, 0, 0, 73, 69, 78, 68, 174, 66, 96, 130,
];

const PNG_8X2: [u8; 73] = [
    137, 80, 78, 71, 13, 10, 26, 10, 0, 0, 0, 13, 73, 72, 68, 82, 0, 0, 0, 8, 0, 0, 0, 2, 8, 2, 0,
    0, 0, 234, 246, 10, 186, 0, 0, 0, 16, 73, 68, 65, 84, 120, 156, 99, 96, 104, 248, 143, 29,
    225, 146, 0, 0, 70, 208, 23, 241, 139, 38, 237, 218, 0, 0, 0, 0, 73, 69, 78, 68, 174, 66, 96,
    130,
];

const JPEG_2X2: [u8; 331] = [
    255, 216, 255, 224, 0, 16, 74, 70, 73, 70, 0, 1, 1, 0, 0, 1, 0, 1, 0, 0, 255, 219, 0, 67, 0,
    8, 6, 6, 7, 6, 5, 8, 7, 7, 7, 9, 9, 8, 10, 12, 20, 13, 12, 11, 11, 12, 25, 18, 19, 15, 20, 29,
    26, 31, 30, 29, 26, 28, 28, 32, 36, 46, 39, 32, 34, 44, 35, 28, 28, 40, 55, 41, 44, 48, 49,
    52, 52, 52, 31, 39, 57, 61, 56, 50, 60, 46, 51, 52, 50, 255, 192, 0, 11, 8, 0, 2, 0, 2, 1, 1,
    17, 0, 255, 196, 0, 31, 0, 0, 1, 5, 1, 1, 1, 1, 1, 1, 0, 0, 0, 0, 0, 0, 0, 0, 1, 2, 3, 4, 5,
    6, 7, 8, 9, 10, 11, 255, 196, 0, 181, 16, 0, 2, 1, 3, 3, 2, 4, 3, 5, 5, 4, 4, 0, 0, 1, 125, 1,
    2, 3, 0, 4, 17, 5, 18, 33, 49, 65, 6, 19, 81, 97, 7, 34, 113, 20, 50, 129, 145, 161, 8, 35,
    66, 177, 193, 21, 82, 209, 240, 36, 51, 98, 114, 130, 9, 10, 22, 23, 24, 25, 26, 37, 38, 39,
    40, 41, 42, 52, 53, 54, 55, 56, 57, 58, 67, 68, 69, 70, 71, 72, 73, 74, 83, 84, 85, 86, 87,
    88, 89, 90, 99, 100, 101, 102, 103, 104, 105, 106, 115, 116, 117, 118, 119, 120, 121, 122,
    131, 132, 133, 134, 135, 136, 137, 138, 146, 147, 148, 149, 150, 151, 152, 153, 154, 162, 163,
    164, 165, 166, 167, 168, 169, 170, 178, 179, 180, 181, 182, 183, 184, 185, 186, 194, 195, 196,
    197, 198, 199, 200, 201, 202, 210, 211, 212, 213, 214, 215, 216, 217, 218, 225, 226, 227, 228,
    229, 230, 231, 232, 233, 234, 241, 242, 243, 244, 245, 246, 247, 248, 249, 250, 255, 218, 0,
    8, 1, 1, 0, 0, 63, 0, 43, 255, 217,
];

#[test]
fn mime_type_detection() {
    assert_eq!(get_mime_type(&PNG_1X1).unwrap(), "image/png");
    assert_eq!(get_mime_type(&JPEG_2X2).unwrap(), "image/jpeg");
    assert_eq!(get_mime_type(b"not an image"), Err(TranscodeError::DecodeError));
}

#[test]
fn mime_type_answers_from_the_magic_bytes_alone() {
    // A PNG signature over bytes that do not decode still names the format.
    let mut bytes = vec![137u8, 80, 78, 71, 13, 10, 26, 10];
    bytes.extend_from_slice(b"not a real image body");
    assert_eq!(get_mime_type(&bytes).unwrap(), "image/png");
}

#[test]
fn strip_exif_reencodes_in_same_format() {
    let out = strip_exif(&PNG_1X1).unwrap();
    assert_eq!(get_mime_type(&out).unwrap(), "image/png");
    // A re-encode, not the input handed back.
    assert_ne!(out, PNG_1X1.to_vec());
    let out = strip_exif(&JPEG_2X2).unwrap();
    assert_eq!(get_mime_type(&out).unwrap(), "image/jpeg");
    assert_ne!(out, JPEG_2X2.to_vec());
}

#[test]
fn strip_exif_rejects_garbage() {
    assert_eq!(strip_exif(b"garbage"), Err(TranscodeError::DecodeError));
}

#[test]
fn process_without_constraints_is_identity() {
    let p = ImageProcessor::new();
    assert_eq!(p.process(&PNG_1X1).unwrap(), PNG_1X1.to_vec());
    assert_eq!(p.process(b"anything at all").unwrap(), b"anything at all".to_vec());
}

#[test]
fn process_under_budget_is_identity() {
    let p = ImageProcessor::new().with_max_size(1_000_000);
    assert_eq!(p.process(&JPEG_2X2).unwrap(), JPEG_2X2.to_vec());
}

#[test]
fn process_strip_only_equals_strip() {
    let p = ImageProcessor::new().with_exif_stripping();
    assert_eq!(p.process(&PNG_1X1).unwrap(), strip_exif(&PNG_1X1).unwrap());
}

#[test]
fn process_strip_rejects_garbage() {
    let p = ImageProcessor::new().with_exif_stripping();
    assert_eq!(p.process(b"garbage"), Err(TranscodeError::DecodeError));
}

#[test]
fn compress_rejects_garbage() {
    assert_eq!(
        compress_image(b"garbage", 1000, None),
        Err(TranscodeError::DecodeError)
    );
}

#[test]
fn compress_with_room_meets_budget() {
    let out = compress_image(&JPEG_2X2, 10_000, None).unwrap();
    assert!(out.len() <= 10_000);
    assert_eq!(get_mime_type(&out).unwrap(), "image/jpeg");
    // A fresh encode at the starting quality, not the input handed back.
    assert_ne!(out, JPEG_2X2.to_vec());
}

#[test]
fn compress_never_grows_past_unconstrained_encoding() {
    // The unconstrained encoding: the same quality-start pass with a budget
    // nothing can miss.
    let first = compress_image(&JPEG_2X2, usize::MAX, None).unwrap();
    // A budget of one byte is unreachable; the result must still not exceed
    // the unconstrained encoding.
    let out = compress_image(&JPEG_2X2, 1, None).unwrap();
    assert!(out.len() <= first.len());

    let first_png = compress_image(&PNG_1X1, usize::MAX, None).unwrap();
    let out_png = compress_image(&PNG_1X1, 1, None).unwrap();
    assert!(out_png.len() <= first_png.len());
}

#[test]
fn compress_is_deterministic() {
    // The contract pins the result to a function of the arguments: two calls
    // must agree, budget search and downscale pass included.
    let a = compress_image(&JPEG_2X2, 1, None).unwrap();
    let b = compress_image(&JPEG_2X2, 1, None).unwrap();
    assert_eq!(a, b);
    let c = compress_image(&PNG_8X2, 1, Some(4)).unwrap();
    let d = compress_image(&PNG_8X2, 1, Some(4)).unwrap();
    assert_eq!(c, d);
}

#[test]
fn compress_caps_dimensions() {
    let out = compress_image(&PNG_8X2, usize::MAX, Some(4)).unwrap();
    assert_eq!(get_mime_type(&out).unwrap(), "image/png");
    let img = image::load_from_memory(&out).unwrap();
    assert_eq!(image::GenericImageView::dimensions(&img), (4, 1));
}

#[test]
fn processor_builders_combine() {
    let p = ImageProcessor::new()
        .with_max_size(123)
        .with_max_dimension(456)
        .with_exif_stripping();
    // The configuration applies the strip first: garbage fails as a decode
    // error even with a budget set.
    assert_eq!(p.process(b"garbage"), Err(TranscodeError::DecodeError));
}
