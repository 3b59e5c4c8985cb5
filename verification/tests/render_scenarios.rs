use qr_code_styling::{
    BorderPlugin, DotsOptions, DotType, ImageOptions, Position, QRBorderOptions, QRCodeStyling,
    ShapeType,
};

fn dot_clip_block(svg: &str) -> &str {
    let open = "<clipPath id=\"clip-path-dot-color-0\">";
    let start = svg.find(open).expect("dot clip path present") + open.len();
    let end = svg[start..].find("</clipPath>").expect("dot clip closes") + start;
    &svg[start..end]
}

#[test]
fn test_end_to_end_default_render() {
    let qr = QRCodeStyling::builder()
        .data("https://example.com".to_string())
        .width(300)
        .height(300)
        .build()
        .unwrap();
    let svg = qr.render_svg().unwrap();
    assert!(svg.starts_with("<?xml version=\"1.0\" encoding=\"UTF-8\"?>"));
    assert!(svg.contains("width=\"300\" height=\"300\" viewBox=\"0 0 300 300\""));
    assert_eq!(svg.matches("<defs>").count(), 1);
    assert_eq!(svg.matches("</defs>").count(), 1);
    assert!(svg.ends_with("</svg>"));
    // At least one dark-module primitive inside the module clip path.
    let block = dot_clip_block(&svg);
    assert!(block.matches("<rect").count() >= 1);
}

#[test]
fn test_end_to_end_canvas_too_small() {
    let result = QRCodeStyling::builder()
        .data("https://example.com".to_string())
        .width(20)
        .height(300)
        .build();
    match result {
        Err(qr_code_styling::QRError::CanvasTooSmall { width, height }) => {
            assert_eq!(width, 20);
            assert_eq!(height, 300);
        }
        other => panic!("unexpected result: {:?}", other.map(|q| q.module_count())),
    }
}

#[test]
fn test_end_to_end_circle_adds_dots() {
    let square = QRCodeStyling::builder()
        .data("https://example.com".to_string())
        .width(300)
        .height(300)
        .shape(ShapeType::Square)
        .build()
        .unwrap();
    let circle = QRCodeStyling::builder()
        .data("https://example.com".to_string())
        .width(300)
        .height(300)
        .shape(ShapeType::Circle)
        .build()
        .unwrap();
    let svg_square = square.render_svg().unwrap();
    let svg_circle = circle.render_svg().unwrap();
    let n_square = dot_clip_block(&svg_square).matches("<rect").count();
    let n_circle = dot_clip_block(&svg_circle).matches("<rect").count();
    assert!(n_circle > n_square, "circle {} should exceed square {}", n_circle, n_square);
}

#[test]
fn test_end_to_end_border_text_arc() {
    let qr = QRCodeStyling::builder()
        .data("https://example.com".to_string())
        .width(300)
        .height(300)
        .build()
        .unwrap();
    let svg = qr.render_svg().unwrap();
    let options = QRBorderOptions::new(20, "#000000".to_string())
        .with_round(50)
        .with_text(Position::Top, "SCAN ME".to_string());
    let plugin = BorderPlugin::new(options);
    let result = plugin.apply(&svg, 300, 300);
    assert!(result.contains("<path id=\"top-text-path\""));
    assert!(result.contains("xlink:href=\"#top-text-path\""));
    assert!(result.contains("textPath"));
    assert_eq!(result.matches("</svg>").count(), 1);
}

#[test]
fn test_logo_embeds_data_uri() {
    let png_magic = vec![0x89, 0x50, 0x4E, 0x47, 0x0D, 0x0A, 0x1A, 0x0A, 1, 2, 3];
    let qr = QRCodeStyling::builder()
        .data("https://example.com".to_string())
        .image(png_magic)
        .image_options(ImageOptions::default())
        .build()
        .unwrap();
    let svg = qr.render_svg().unwrap();
    assert!(svg.contains("data:image/png;base64,"));
    assert!(svg.contains("<image href=\"data:image/png;base64,"));
}

#[test]
fn test_rounded_dots_render_paths() {
    let qr = QRCodeStyling::builder()
        .data("Test".to_string())
        .dots_options(DotsOptions::new(DotType::Rounded))
        .build()
        .unwrap();
    let svg = qr.render_svg().unwrap();
    let block = dot_clip_block(&svg);
    assert!(block.contains("<path"));
}

#[test]
fn test_instance_ids_keep_names_apart() {
    let qr = QRCodeStyling::builder().data("Test".to_string()).build().unwrap();
    let a = qr.render_svg_with_id(1).unwrap();
    let b = qr.render_svg_with_id(2).unwrap();
    assert!(a.contains("clip-path-dot-color-1"));
    assert!(b.contains("clip-path-dot-color-2"));
}
