use sfml::geometry::{Color, Fixed, IntRect, Rect, Vector2};

#[test]
fn fixed_from_int_is_a_thousand_millis() {
    assert_eq!(Fixed::from_int(2).milli(), 2000);
    assert_eq!(Fixed::from_int(-3).milli(), -3000);
    assert_eq!(Fixed::from_int(0).milli(), 0);
}

#[test]
fn fixed_add_sums_millis() {
    let a = Fixed::from_milli(1250);
    let b = Fixed::from_milli(-250);
    assert_eq!(a.add(b).milli(), 1000);
}

#[test]
fn fixed_half_rounds_down() {
    assert_eq!(Fixed::from_milli(5).half().milli(), 2);
    assert_eq!(Fixed::from_milli(1000).half().milli(), 500);
    assert_eq!(Fixed::from_milli(0).half().milli(), 0);
    // Negative values round toward negative infinity.
    assert_eq!(Fixed::from_milli(-5).half().milli(), -3);
    assert_eq!(Fixed::from_milli(-1000).half().milli(), -500);
}

#[test]
fn fixed_scale_multiplies_in_thousandths() {
    // 1.5 * 1.5 = 2.25
    let a = Fixed::from_milli(1500);
    assert_eq!(a.scale(a).milli(), 2250);
    // 2 * 3 = 6
    assert_eq!(Fixed::from_int(2).scale(Fixed::from_int(3)).milli(), 6000);
    // Rounding is toward negative infinity: 0.001 * 0.5 = 0.0005 -> 0
    assert_eq!(Fixed::from_milli(1).scale(Fixed::from_milli(500)).milli(), 0);
    // ... and -0.001 * 0.5 = -0.0005 -> -0.001
    assert_eq!(Fixed::from_milli(-1).scale(Fixed::from_milli(500)).milli(), -1);
    // Signs multiply through: -2 * 3 = -6
    assert_eq!(Fixed::from_int(-2).scale(Fixed::from_int(3)).milli(), -6000);
}

#[test]
fn vector_and_rect_carry_their_parts() {
    let v = Vector2::new(Fixed::from_int(1), Fixed::from_int(2));
    assert_eq!(v.x, Fixed::from_int(1));
    assert_eq!(v.y, Fixed::from_int(2));
    let r = Rect::new(
        Fixed::from_int(1),
        Fixed::from_int(2),
        Fixed::from_int(3),
        Fixed::from_int(4),
    );
    assert_eq!(r.width, Fixed::from_int(3));
    let ir = IntRect::new(5, 6, 7, 8);
    assert_eq!(ir.height, 8);
}

#[test]
fn white_is_fully_opaque() {
    let w = Color::white();
    assert_eq!((w.red, w.green, w.blue, w.alpha), (255, 255, 255, 255));
    let c = Color::rgb(9, 8, 7);
    assert_eq!((c.red, c.green, c.blue, c.alpha), (9, 8, 7, 255));
}
