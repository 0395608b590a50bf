use lens_ocr::errors::OcrError;
use lens_ocr::image_data::{
    compute_target_dims, encode_image, maybe_resize_image, PixelImage, PIXEL_CEILING,
};
use lens_ocr::multipart::create_multipart_form;
use lens_ocr::pipeline::{get_timestamp_ms, prepare_upload};

fn solid_image(width: u32, height: u32) -> PixelImage {
    let bytes = vec![200u8; (width as usize) * (height as usize) * 4];
    match PixelImage::new(width, height, bytes) {
        Ok(img) => img,
        Err(_) => panic!("buffer was sized to match"),
    }
}

#[test]
fn pixel_image_requires_exact_buffer() {
    assert!(PixelImage::new(2, 2, vec![0u8; 16]).is_ok());
    let short = PixelImage::new(2, 2, vec![0u8; 15]);
    match short {
        Err(e) => assert_eq!(e, OcrError::BufferSize),
        Ok(_) => panic!("mismatched buffer must be rejected"),
    }
    let long = PixelImage::new(2, 2, vec![0u8; 17]);
    assert!(long.is_err());
}

#[test]
fn normalizer_keeps_small_image_unchanged() {
    let img = solid_image(100, 80);
    let bytes_before = img.bytes.clone();
    let out = maybe_resize_image(img);
    assert_eq!(out.width, 100);
    assert_eq!(out.height, 80);
    assert_eq!(out.bytes, bytes_before);
}

#[test]
fn normalizer_keeps_image_at_exact_ceiling() {
    let img = solid_image(2000, 1500);
    let out = maybe_resize_image(img);
    assert_eq!(out.width, 2000);
    assert_eq!(out.height, 1500);
}

#[test]
fn target_dims_for_twelve_megapixels() {
    assert_eq!(compute_target_dims(4000, 3000), (2000, 1500));
}

#[test]
fn target_dims_stay_under_ceiling_and_keep_aspect() {
    let samples: &[(u32, u32)] = &[
        (4000, 3000),
        (10000, 10000),
        (3001, 1000),
        (123456, 7000),
        (7000, 123456),
        (2000, 1501),
    ];
    for &(w, h) in samples {
        let (nw, nh) = compute_target_dims(w, h);
        assert!((nw as u64) * (nh as u64) <= PIXEL_CEILING);
        // cross-multiplied aspect bounds: nh/nw matches h/w up to rounding
        assert!((nh as u64) * (w as u64) <= (nw as u64) * (h as u64));
        assert!((nw as u64) * (h as u64) < (nh as u64 + 1) * (w as u64));
    }
}

#[test]
fn resampling_changes_dimensions_for_real() {
    let w: u32 = 3_100_000;
    let h: u32 = 1;
    let img = solid_image(w, h);
    let dims = compute_target_dims(w, h);
    let out = maybe_resize_image(img);
    assert_eq!(out.width, dims.0);
    assert_eq!(out.height, dims.1);
    assert_eq!(
        out.bytes.len(),
        (out.width as usize) * (out.height as usize) * 4
    );
}

#[test]
fn png_encoding_fails_only_without_pixels() {
    let empty_width = PixelImage::new(0, 5, Vec::new()).expect("zero times anything is zero");
    match encode_image(&empty_width) {
        Err(e) => assert_eq!(e, OcrError::Encode),
        Ok(_) => panic!("a zero-width image cannot encode"),
    }
    let empty_height = PixelImage::new(5, 0, Vec::new()).expect("zero times anything is zero");
    assert!(encode_image(&empty_height).is_err());
    let one_pixel = solid_image(1, 1);
    assert!(encode_image(&one_pixel).is_ok());
}

#[test]
fn prepare_upload_refuses_only_empty_images() {
    let empty = PixelImage::new(0, 0, Vec::new()).expect("an empty buffer matches");
    match prepare_upload(&empty, 1) {
        Err(e) => assert_eq!(e, OcrError::Encode),
        Ok(_) => panic!("an image without pixels cannot upload"),
    }
    assert!(prepare_upload(&solid_image(1, 1), 1).is_ok());
}

#[test]
fn error_messages_name_the_operation() {
    assert_eq!(OcrError::ImageDecode.message().as_str(), "Could not open image");
    assert_eq!(OcrError::ClipboardEmpty.message().as_str(), "clipboard has no image");
    assert_eq!(
        OcrError::UpstreamStatus(404).message().as_str(),
        "Google responded with 404"
    );
    assert_eq!(
        OcrError::PayloadNotFound.message().as_str(),
        "Could not find object data"
    );
}

#[test]
fn png_encoding_yields_png_bytes() {
    let img = solid_image(2, 2);
    let bytes = match encode_image(&img) {
        Ok(b) => b,
        Err(_) => panic!("a two-by-two RGBA image encodes"),
    };
    assert!(bytes.len() > 8);
    assert_eq!(&bytes[0..8], &[137u8, 80, 78, 71, 13, 10, 26, 10]);
}

#[test]
fn prepare_upload_builds_url_filename_and_body() {
    let img = solid_image(3, 2);
    let ts: u128 = 1700000000123;
    let req = match prepare_upload(&img, ts) {
        Ok(r) => r,
        Err(_) => panic!("a small image uploads"),
    };
    assert_eq!(
        req.url.as_str(),
        "https://lens.google.com/v3/upload?stcs=1700000000123"
    );
    assert_eq!(req.filename.as_str(), "1700000000123.png");
    let encoded = encode_image(&img).expect("encodes");
    assert_eq!(req.body, create_multipart_form("1700000000123.png", &encoded));
}

#[test]
fn timestamp_is_after_epoch() {
    let a = get_timestamp_ms();
    let b = get_timestamp_ms();
    assert!(a > 0);
    assert!(b >= a);
}
