use lens_ocr::multipart::{create_multipart_form, upload_filename, upload_url, BOUNDARY};
use lens_ocr::text::decimal_string;

#[test]
fn boundary_token_is_fixed() {
    assert_eq!(BOUNDARY, "ZPJQvnUMIqajI5LbS8cc5w");
}

#[test]
fn multipart_layout_is_exact() {
    let img: &[u8] = b"\x89PNG\r\nfakedata";
    let out = create_multipart_form("123.png", img);
    let mut expected: Vec<u8> = Vec::new();
    expected.extend_from_slice(b"--ZPJQvnUMIqajI5LbS8cc5w\r\n");
    expected.extend_from_slice(b"Content-Type: image/png\r\n");
    expected.extend_from_slice(b"Content-Disposition: form-data; name=\"encoded_image\"; ");
    expected.extend_from_slice(b"filename=\"123.png\"\r\n\r\n");
    expected.extend_from_slice(img);
    expected.extend_from_slice(b"\r\n--ZPJQvnUMIqajI5LbS8cc5w--\r\n");
    assert_eq!(out, expected);
}

#[test]
fn multipart_is_deterministic() {
    let img: &[u8] = &[0u8, 1, 2, 3, 255, 254];
    let a = create_multipart_form("1700000000000.png", img);
    let b = create_multipart_form("1700000000000.png", img);
    assert_eq!(a, b);
}

#[test]
fn multipart_framing_delimiters() {
    let out = create_multipart_form("x.png", b"payload");
    assert!(out.starts_with(b"--ZPJQvnUMIqajI5LbS8cc5w\r\n"));
    assert!(out.ends_with(b"--ZPJQvnUMIqajI5LbS8cc5w--\r\n"));
}

#[test]
fn multipart_empty_image_still_framed() {
    let out = create_multipart_form("0.png", b"");
    assert!(out.starts_with(b"--ZPJQvnUMIqajI5LbS8cc5w\r\n"));
    assert!(out.ends_with(b"\r\n--ZPJQvnUMIqajI5LbS8cc5w--\r\n"));
}

#[test]
fn decimal_rendering() {
    assert_eq!(decimal_string(0).as_str(), "0");
    assert_eq!(decimal_string(7).as_str(), "7");
    assert_eq!(decimal_string(10).as_str(), "10");
    assert_eq!(decimal_string(1234567890).as_str(), "1234567890");
    assert_eq!(
        decimal_string(u128::MAX).as_str(),
        "340282366920938463463374607431768211455"
    );
}

#[test]
fn filename_carries_timestamp() {
    assert_eq!(upload_filename(1700000000123).as_str(), "1700000000123.png");
}

#[test]
fn url_carries_timestamp() {
    assert_eq!(
        upload_url(1700000000123).as_str(),
        "https://lens.google.com/v3/upload?stcs=1700000000123"
    );
}
