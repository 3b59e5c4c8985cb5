use qr_code_styling::Color;
use qr_code_styling::QRError;

#[test]
fn test_from_hex() {
    assert_eq!(Color::from_hex("#FF0000").unwrap(), Color::rgb(255, 0, 0));
    assert_eq!(Color::from_hex("#00FF00").unwrap(), Color::rgb(0, 255, 0));
    assert_eq!(Color::from_hex("#0000FF").unwrap(), Color::rgb(0, 0, 255));
    assert_eq!(Color::from_hex("000000").unwrap(), Color::rgb(0, 0, 0));
    assert_eq!(Color::from_hex("#FFF").unwrap(), Color::rgb(255, 255, 255));
}

#[test]
fn test_to_hex() {
    assert_eq!(Color::rgb(255, 0, 0).to_hex(), "#FF0000");
    assert_eq!(Color::rgba(255, 0, 0, 128).to_hex(), "#FF000080");
}

#[test]
fn test_hex_round_trip_mixed_case() {
    let c = Color::from_hex("#a1B2c3").unwrap();
    assert_eq!(c.to_hex(), "#A1B2C3");
}

#[test]
fn test_three_digit_expands_by_seventeen() {
    let c = Color::from_hex("#abc").unwrap();
    assert_eq!(c, Color::rgb(0xAA, 0xBB, 0xCC));
    assert_eq!(0xAA, 10 * 17);
}

#[test]
fn test_eight_digit_alpha() {
    let c = Color::from_hex("11223344").unwrap();
    assert_eq!(c, Color::rgba(0x11, 0x22, 0x33, 0x44));
}

#[test]
fn test_from_hex_invalid() {
    match Color::from_hex("xyz") {
        Err(QRError::InvalidColor(m)) => assert_eq!(m, "xyz"),
        other => panic!("unexpected result: {:?}", other),
    }
    assert!(Color::from_hex("#12345").is_err());
}

#[test]
fn test_to_rgba_string() {
    assert_eq!(Color::rgb(1, 2, 3).to_rgba_string(), "rgb(1, 2, 3)");
    assert_eq!(Color::rgba(255, 0, 0, 128).to_rgba_string(), "rgba(255, 0, 0, 0.502)");
    assert_eq!(Color::rgba(0, 0, 0, 0).to_rgba_string(), "rgba(0, 0, 0, 0.000)");
}
