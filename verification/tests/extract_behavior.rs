use lens_ocr::errors::OcrError;
use lens_ocr::extract::extract_payload_text;
use lens_ocr::pipeline::process_response;

fn mock_response(data: &str) -> String {
    let mut s = String::from("<html><body><script>AF_initDataCallback({key: 'ds:0'});</script>");
    s.push_str(">AF_initDataCallback({key: 'ds:1', data: ");
    s.push_str(data);
    s.push_str("});</script></html>");
    s
}

#[test]
fn extraction_joins_string_fragments() {
    let text = mock_response("[0,0,0,[0,0,0,0,[[[\"Hello\",\"World\"]]]]]");
    let out = extract_payload_text(&text);
    assert_eq!(out, Ok(String::from("Hello\nWorld")));
}

#[test]
fn extraction_skips_non_string_fragments() {
    let text = mock_response("[0,0,0,[0,0,0,0,[[[\"hello\",42,\"world\"]]]]]");
    let out = extract_payload_text(&text);
    assert_eq!(out, Ok(String::from("hello\nworld")));
}

#[test]
fn extraction_trims_trailing_whitespace() {
    let text = mock_response("[0,0,0,[0,0,0,0,[[[\"a \",\" \"]]]]]");
    let out = extract_payload_text(&text);
    assert_eq!(out, Ok(String::from("a")));
}

#[test]
fn extraction_empty_target_is_empty_text() {
    let text = mock_response("[0,0,0,[0,0,0,0,[[]]]]");
    let out = extract_payload_text(&text);
    assert_eq!(out, Ok(String::new()));
}

#[test]
fn extraction_without_payload_is_not_found() {
    let out = extract_payload_text("<html><body>nothing to see here</body></html>");
    assert_eq!(out, Err(OcrError::PayloadNotFound));
}

#[test]
fn extraction_with_other_callback_key_is_not_found() {
    let out =
        extract_payload_text("<html>>AF_initDataCallback({key: 'ds:0', data: [1]});</script>");
    assert_eq!(out, Err(OcrError::PayloadNotFound));
}

#[test]
fn extraction_is_idempotent_on_fixed_text() {
    let text = mock_response("[0,0,0,[0,0,0,0,[[[\"Hello\",\"World\"]]]]]");
    let first = extract_payload_text(&text);
    let second = extract_payload_text(&text);
    assert_eq!(first, second);
    let missing = String::from("<html>no payload</html>");
    assert_eq!(
        extract_payload_text(&missing),
        extract_payload_text(&missing)
    );
}

#[test]
fn extraction_ill_formed_blob_is_parse_error() {
    let out =
        extract_payload_text("<html>>AF_initDataCallback({key: 'ds:1', data: [);</script></html>");
    assert_eq!(out, Err(OcrError::PayloadParse));
}

#[test]
fn extraction_short_data_is_shape_error() {
    let text = mock_response("[1,2]");
    let out = extract_payload_text(&text);
    assert_eq!(out, Err(OcrError::PayloadShape));
}

#[test]
fn extraction_missing_data_key_is_shape_error() {
    let out = extract_payload_text("<html>>AF_initDataCallback({key: 'ds:1'});</script></html>");
    assert_eq!(out, Err(OcrError::PayloadShape));
}

#[test]
fn extraction_non_array_fragment_level_is_shape_error() {
    let text = mock_response("[0,0,0,[0,0,0,0,[[\"Hello\",\"World\"]]]]");
    let out = extract_payload_text(&text);
    assert_eq!(out, Err(OcrError::PayloadShape));
}

#[test]
fn non_200_status_is_upstream_error_without_extraction() {
    let text = mock_response("[0,0,0,[0,0,0,0,[[[\"Hello\",\"World\"]]]]]");
    let out = process_response(500, &text);
    assert_eq!(out, Err(OcrError::UpstreamStatus(500)));
    assert_eq!(
        OcrError::UpstreamStatus(500).message().as_str(),
        "Google responded with 500"
    );
}

#[test]
fn status_200_goes_through_extraction() {
    let text = mock_response("[0,0,0,[0,0,0,0,[[[\"Hello\",\"World\"]]]]]");
    let out = process_response(200, &text);
    assert_eq!(out, Ok(String::from("Hello\nWorld")));
}
