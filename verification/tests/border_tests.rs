use qr_code_styling::{BorderOptions, BorderPlugin, Position, QRBorderOptions};

#[test]
fn test_border_options_default() {
    let opts = BorderOptions::default();
    assert_eq!(opts.thickness, 10);
    assert_eq!(opts.color, "#000000");
    assert!(opts.dasharray.is_none());
}

#[test]
fn test_qr_border_options_builder() {
    let opts = QRBorderOptions::new(15, "#FF0000".to_string())
        .with_round(50)
        .with_text(Position::Top, "SCAN ME".to_string())
        .with_inner_border(BorderOptions::new(5, "#00FF00".to_string()));
    assert_eq!(opts.border.thickness, 15);
    assert_eq!(opts.border.color, "#FF0000");
    assert_eq!(opts.round, 50);
    assert!(opts.border_inner.is_some());
    assert!(opts.decoration_at(Position::Top).is_some());
}

#[test]
fn test_border_plugin_apply() {
    let svg = "<?xml version=\"1.0\"?>\n<svg xmlns=\"http://www.w3.org/2000/svg\" width=\"300\" height=\"300\">\n<defs></defs>\n<rect x=\"0\" y=\"0\" width=\"300\" height=\"300\" fill=\"white\"/>\n</svg>";
    let options = QRBorderOptions::new(10, "#000000".to_string()).with_round(20);
    let plugin = BorderPlugin::new(options);
    let result = plugin.apply(svg, 300, 300);
    assert!(result.contains("stroke=\"#000000\""));
    assert!(result.contains("stroke-width=\"10\""));
}

#[test]
fn test_border_with_text_decoration() {
    let svg = "<?xml version=\"1.0\"?>\n<svg xmlns=\"http://www.w3.org/2000/svg\" width=\"300\" height=\"300\">\n<defs></defs>\n</svg>";
    let options = QRBorderOptions::new(20, "#333333".to_string())
        .with_round(50)
        .with_styled_text(Position::Top, "SCAN ME".to_string(), "font-size: 14px; fill: #333;".to_string());
    let plugin = BorderPlugin::new(options);
    let result = plugin.apply(svg, 300, 300);
    assert!(result.contains("SCAN ME"));
    assert!(result.contains("textPath"));
    assert!(result.contains("top-text-path"));
}

#[test]
fn test_border_without_root_tag_appends() {
    let options = QRBorderOptions::new(4, "#123456".to_string());
    let plugin = BorderPlugin::new(options);
    let result = plugin.apply("plain content   \n", 100, 100);
    assert!(result.starts_with("plain content\n"));
    assert!(result.contains("stroke=\"#123456\""));
}
