use qr_code_styling::svg::placed_markup;
use qr_code_styling::{
    CornerDotType, CornerSquareType, DotType, Fixed, Neighbors, QRCornerDot, QRCornerSquare, QRDot,
    Turn,
};

fn px(v: i64) -> Fixed {
    Fixed::from_px(v)
}

#[test]
fn drawer_test_draw_square() {
    let drawer = QRDot::new(DotType::Square);
    let svg = placed_markup(&drawer.draw(px(0), px(0), px(10), None));
    assert!(svg.contains("rect"));
    assert!(svg.contains("width=\"10\""));
}

#[test]
fn drawer_test_draw_dot() {
    let drawer = QRDot::new(DotType::Dots);
    let svg = placed_markup(&drawer.draw(px(0), px(0), px(10), None));
    assert!(svg.contains("circle"));
    assert!(svg.contains("r=\"5\""));
}

#[test]
fn test_draw_rounded_no_neighbors() {
    let drawer = QRDot::new(DotType::Rounded);
    let svg = placed_markup(&drawer.draw(px(0), px(0), px(10), None));
    assert!(svg.contains("circle"));
}

#[test]
fn test_draw_rounded_with_neighbors() {
    let drawer = QRDot::new(DotType::Rounded);
    let n = Neighbors { left: false, right: true, top: false, bottom: false };
    let svg = placed_markup(&drawer.draw(px(0), px(0), px(10), Some(&n)));
    assert!(svg.contains("path"));
}

#[test]
fn corner_square_test_draw_square() {
    let drawer = QRCornerSquare::new(CornerSquareType::Square);
    let svg = placed_markup(&drawer.draw(px(0), px(0), px(70), Turn::T0));
    assert!(svg.contains("path"));
    assert!(svg.contains("evenodd"));
}

#[test]
fn corner_square_test_draw_dot() {
    let drawer = QRCornerSquare::new(CornerSquareType::Dot);
    let svg = placed_markup(&drawer.draw(px(0), px(0), px(70), Turn::T0));
    assert!(svg.contains("path"));
    assert!(svg.contains("evenodd"));
}

#[test]
fn test_draw_extra_rounded() {
    let drawer = QRCornerSquare::new(CornerSquareType::ExtraRounded);
    let svg = placed_markup(&drawer.draw(px(0), px(0), px(70), Turn::T0));
    assert!(svg.contains("path"));
}

#[test]
fn corner_dot_test_draw_dot() {
    let drawer = QRCornerDot::new(CornerDotType::Dot);
    let svg = placed_markup(&drawer.draw(px(0), px(0), px(30), Turn::T0));
    assert!(svg.contains("circle"));
    assert!(svg.contains("r=\"15\""));
}

#[test]
fn corner_dot_test_draw_square() {
    let drawer = QRCornerDot::new(CornerDotType::Square);
    let svg = placed_markup(&drawer.draw(px(0), px(0), px(30), Turn::T0));
    assert!(svg.contains("rect"));
    assert!(svg.contains("width=\"30\""));
}

#[test]
fn test_selection_rotates_quarter() {
    // A single top neighbor and a single right neighbor select the same
    // side-rounded family, a quarter turn apart.
    let drawer = QRDot::new(DotType::Rounded);
    let top = Neighbors { left: false, right: false, top: true, bottom: false };
    let right = Neighbors { left: false, right: false, top: false, bottom: true };
    let a = drawer.draw(px(0), px(0), px(10), Some(&top));
    let b = drawer.draw(px(0), px(0), px(10), Some(&right));
    assert_eq!(a.turn, Turn::T90);
    assert_eq!(b.turn, Turn::T270);
}

#[test]
fn test_opposite_pair_degrades_to_square() {
    for dt in [DotType::Rounded, DotType::ExtraRounded, DotType::Classy, DotType::ClassyRounded] {
        let drawer = QRDot::new(dt);
        let n = Neighbors { left: true, right: true, top: false, bottom: false };
        let svg = placed_markup(&drawer.draw(px(0), px(0), px(10), Some(&n)));
        assert!(svg.contains("rect"), "{:?} should degrade to a square", dt);
        let n3 = Neighbors { left: true, right: true, top: true, bottom: false };
        let svg3 = placed_markup(&drawer.draw(px(0), px(0), px(10), Some(&n3)));
        assert!(svg3.contains("rect"), "{:?} should degrade to a square", dt);
    }
}
