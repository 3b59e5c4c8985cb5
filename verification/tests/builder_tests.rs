use qr_code_styling::QRCodeStylingBuilder;

#[test]
fn test_builder_basic() {
    let options = QRCodeStylingBuilder::new()
        .data("https://example.com".to_string())
        .width(400)
        .height(400)
        .build_options()
        .unwrap();
    assert_eq!(options.data, "https://example.com");
    assert_eq!(options.width, 400);
    assert_eq!(options.height, 400);
}

#[test]
fn test_builder_missing_data() {
    let result = QRCodeStylingBuilder::new().build_options();
    assert!(result.is_err());
}

#[test]
fn test_builder_empty_data() {
    let result = QRCodeStylingBuilder::new().data(String::new()).build_options();
    assert!(result.is_err());
}

#[test]
fn test_builder_canvas_too_small() {
    let result = QRCodeStylingBuilder::new()
        .data("https://example.com".to_string())
        .width(20)
        .build_options();
    match result {
        Err(qr_code_styling::QRError::CanvasTooSmall { width, height }) => {
            assert_eq!(width, 20);
            assert_eq!(height, 300);
        }
        other => panic!("unexpected result: {:?}", other),
    }
}
