use qr_code_styling::{QRMatrix, QROptions};

#[test]
fn test_qr_matrix_creation() {
    let options = QROptions::default();
    let matrix = QRMatrix::new("Hello", &options).unwrap();
    assert!(matrix.size() >= 21);
}

#[test]
fn test_is_dark() {
    let options = QROptions::default();
    let matrix = QRMatrix::new("Test", &options).unwrap();
    assert!(matrix.is_dark(0, 0));
}

#[test]
fn test_neighbor_lookup() {
    let options = QROptions::default();
    let matrix = QRMatrix::new("Test", &options).unwrap();
    let dark = matrix.is_dark(0, 0);
    let neighbor = matrix.get_neighbor(0, 1, -1, 0);
    assert_eq!(dark, neighbor);
}

#[test]
fn test_finder_pattern_detection() {
    let options = QROptions::default();
    let matrix = QRMatrix::new("Test", &options).unwrap();
    assert!(matrix.is_finder_pattern(0, 0));
    assert!(matrix.is_finder_pattern(3, 3));
    assert!(matrix.is_finder_pattern(6, 6));
    let mid = matrix.size() / 2;
    assert!(!matrix.is_finder_pattern(mid, mid));
}

#[test]
fn test_finder_masks_disjoint() {
    let options = QROptions::default();
    let matrix = QRMatrix::new("Test", &options).unwrap();
    let n = matrix.size();
    for row in 0..n {
        for col in 0..n {
            let outer = matrix.is_finder_pattern_outer(row, col);
            let inner = matrix.is_finder_pattern_inner(row, col);
            assert!(!(outer && inner));
            if outer || inner {
                assert!(matrix.is_finder_pattern(row, col));
            }
        }
    }
}

#[test]
fn test_invalid_version_rejected() {
    let options = QROptions {
        type_number: 41,
        error_correction_level: qr_code_styling::ErrorCorrectionLevel::Q,
        mode: None,
    };
    match QRMatrix::new("Test", &options) {
        Err(qr_code_styling::QRError::InvalidVersion(v)) => assert_eq!(v, 41),
        other => panic!("unexpected result: {:?}", other.map(|m| m.size())),
    }
}

#[test]
fn test_capacity_exceeded_is_generation_error() {
    let options = QROptions::default().with_type_number(1);
    let data = "x".repeat(500);
    match QRMatrix::new(&data, &options) {
        Err(qr_code_styling::QRError::QRGenerationError(_)) => {}
        other => panic!("unexpected result: {:?}", other.map(|m| m.size())),
    }
}
