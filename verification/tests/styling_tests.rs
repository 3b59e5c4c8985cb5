use qr_code_styling::{DotsOptions, DotType, QRCodeStyling, QROptions};

#[test]
fn test_basic_creation() {
    let qr = QRCodeStyling::builder()
        .data("https://example.com".to_string())
        .build()
        .unwrap();
    assert!(qr.module_count() >= 21);
}

#[test]
fn test_render_svg() {
    let qr = QRCodeStyling::builder()
        .data("Test".to_string())
        .width(200)
        .height(200)
        .build()
        .unwrap();
    let svg = qr.render_svg().unwrap();
    assert!(svg.contains("<?xml"));
    assert!(svg.contains("<svg"));
    assert!(svg.contains("</svg>"));
}

#[test]
fn test_update() {
    let mut qr = QRCodeStyling::builder().data("First".to_string()).build().unwrap();
    let count1 = qr.module_count();
    qr.update("This is a much longer string that should result in a larger QR code".to_string())
        .unwrap();
    let count2 = qr.module_count();
    assert!(count2 >= count1);
}

#[test]
fn test_with_dot_options() {
    let qr = QRCodeStyling::builder()
        .data("Test".to_string())
        .dots_options(DotsOptions::new(DotType::Dots))
        .build()
        .unwrap();
    let svg = qr.render_svg().unwrap();
    assert!(svg.contains("circle"));
}

#[test]
fn test_crisp_edges_follows_rounding_mode() {
    // Floor-mode sizing carries the crisp-edges hint; exact sizing
    // disables it.
    let rounded = QRCodeStyling::builder()
        .data("Test".to_string())
        .dots_options(DotsOptions::default().with_round_size(true))
        .build()
        .unwrap();
    let exact = QRCodeStyling::builder()
        .data("Test".to_string())
        .dots_options(DotsOptions::default().with_round_size(false))
        .build()
        .unwrap();
    assert!(rounded.render_svg().unwrap().contains("shape-rendering=\"crispEdges\""));
    assert!(!exact.render_svg().unwrap().contains("shape-rendering"));
}

#[test]
fn test_set_options_then_regenerate() {
    let mut qr = QRCodeStyling::builder().data("First".to_string()).build().unwrap();
    let mut o = qr.options().clone();
    o.data = "A considerably longer replacement payload for the symbol".to_string();
    qr.set_options(o);
    qr.regenerate().unwrap();
    assert!(qr.module_count() >= 21);
    assert_eq!(
        qr.options().data,
        "A considerably longer replacement payload for the symbol"
    );
}

#[test]
fn test_update_failure_leaves_state_unchanged() {
    let mut qr = QRCodeStyling::builder()
        .data("ok".to_string())
        .qr_options(QROptions::default().with_type_number(1))
        .build()
        .unwrap();
    let before = qr.module_count();
    let result = qr.update("x".repeat(500));
    assert!(result.is_err());
    assert_eq!(qr.module_count(), before);
    assert_eq!(qr.options().data, "ok");
}
