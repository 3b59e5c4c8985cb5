use qr_code_styling::{calculate_image_size, Fixed};

fn px(v: i64) -> Fixed {
    Fixed::from_px(v)
}

#[test]
fn test_calculate_image_size_square() {
    let result = calculate_image_size(100, 100, 100, 15, px(10));
    assert!(result.hide_x_dots > 0);
    assert!(result.hide_y_dots > 0);
    assert!(result.hide_x_dots * result.hide_y_dots <= 100);
}

#[test]
fn test_calculate_image_size_wide() {
    let result = calculate_image_size(200, 100, 100, 15, px(10));
    assert!(result.hide_x_dots >= result.hide_y_dots);
}

#[test]
fn test_calculate_image_size_tall() {
    let result = calculate_image_size(100, 200, 100, 15, px(10));
    assert!(result.hide_y_dots >= result.hide_x_dots);
}

#[test]
fn test_odd_hide_dots() {
    let result = calculate_image_size(100, 100, 100, 15, px(10));
    assert!(result.hide_x_dots % 2 == 1);
}

#[test]
fn test_hide_dots_axis_clamp() {
    let result = calculate_image_size(100, 100, 10000, 7, px(4));
    assert!(result.hide_x_dots <= 7);
    assert!(result.hide_y_dots <= 7);
    assert!(result.hide_x_dots % 2 == 1);
    assert!(result.hide_y_dots % 2 == 1);
}
