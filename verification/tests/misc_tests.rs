use qr_code_styling::{
    ColorStop, Gradient, Mode, OutputFormat, QRError, SvgRenderer, Color,
    QRCodeStylingOptions, GradientType,
};
use qr_code_styling::composer::tan_micro;

#[test]
fn test_mode_detect() {
    assert_eq!(Mode::detect("123456"), Mode::Numeric);
    assert_eq!(Mode::detect("HELLO WORLD $1"), Mode::Alphanumeric);
    assert_eq!(Mode::detect("hello"), Mode::Byte);
}

#[test]
fn test_output_format_names() {
    assert_eq!(OutputFormat::Svg.mime_type(), "image/svg+xml");
    assert_eq!(OutputFormat::Png.mime_type(), "image/png");
    assert_eq!(OutputFormat::Pdf.extension(), "pdf");
    assert_eq!(OutputFormat::Jpeg.extension(), "jpeg");
}

#[test]
fn test_error_messages() {
    let e = QRError::CanvasTooSmall { width: 20, height: 300 };
    assert_eq!(e.message(), "Canvas dimensions too small: 20x300");
    assert_eq!(QRError::MissingData.message(), "No data provided for QR code");
    assert_eq!(
        QRError::InvalidColor("zzz".to_string()).message(),
        "Invalid color format: zzz"
    );
}

#[test]
fn test_tan_table_endpoints() {
    assert_eq!(tan_micro(0), 0);
    assert_eq!(tan_micro(45), 1_000_000);
    assert_eq!(tan_micro(-45), -1_000_000);
    assert_eq!(tan_micro(30), 577_350);
}

#[test]
fn test_linear_gradient_endpoints_unrotated() {
    // An unrotated linear gradient spans the full canvas box horizontally,
    // with endpoints symmetric about the center.
    let mut options = QRCodeStylingOptions::default();
    options.dots_options = options
        .dots_options
        .with_gradient(Gradient::simple_linear(Color::black(), Color::white()));
    let qr = qr_code_styling::QRCodeStyling::new({
        let mut o = options;
        o.data = "Test".to_string();
        o
    })
    .unwrap();
    let svg = qr.render_svg().unwrap();
    assert!(svg.contains("x1=\"0\""));
    assert!(svg.contains("x2=\"300\""));
    assert!(svg.contains("y1=\"150\""));
    assert!(svg.contains("y2=\"150\""));
}

#[test]
fn test_radial_gradient_centered() {
    let mut o = QRCodeStylingOptions::default();
    o.data = "Test".to_string();
    o.background_options = o
        .background_options
        .with_gradient(Gradient::simple_radial(Color::white(), Color::black()));
    let qr = qr_code_styling::QRCodeStyling::new(o).unwrap();
    let svg = qr.render_svg().unwrap();
    assert!(svg.contains("radialGradient"));
    assert!(svg.contains("cx=\"150\" cy=\"150\" r=\"150\""));
    assert!(svg.contains("<stop offset=\"0%\" stop-color=\"#FFFFFF\"/>"));
    assert!(svg.contains("<stop offset=\"100%\" stop-color=\"#000000\"/>"));
}

#[test]
fn test_gradient_builders() {
    let g = Gradient::linear_rotated(45, vec![ColorStop::new(0, Color::black())]);
    assert_eq!(g.gradient_type, GradientType::Linear);
    assert_eq!(g.rotation, 45);
    assert_eq!(g.color_stops.len(), 1);
    let r = Gradient::radial(vec![ColorStop::new(120, Color::white())]);
    assert_eq!(r.gradient_type, GradientType::Radial);
    assert_eq!(r.color_stops[0].offset, 100);
}

#[test]
fn test_renderer_instance_id() {
    let mut o = QRCodeStylingOptions::default();
    o.data = "Test".to_string();
    let r = SvgRenderer::with_instance_id(o, 7);
    assert_eq!(r.instance_id, 7);
}
