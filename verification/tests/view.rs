use sfml::geometry::{Fixed, Rect, Vector2};
use sfml::view::View;

fn v(x: i64, y: i64) -> Vector2 {
    Vector2::new(Fixed::from_int(x), Fixed::from_int(y))
}

#[test]
fn default_view_then_zoom_by_two_doubles_the_size() {
    let mut view = View::new();
    assert_eq!(view.size(), v(1000, 1000));
    view.zoom(Fixed::from_int(2));
    assert_eq!(view.size(), v(2000, 2000));
    // The zoom touches only the size.
    assert_eq!(view.center(), v(500, 500));
    assert_eq!(view.rotation(), Fixed::from_int(0));
}

#[test]
fn default_view_shows_the_thousand_square() {
    let view = View::new();
    assert_eq!(view.center(), v(500, 500));
    assert_eq!(view.size(), v(1000, 1000));
    assert_eq!(view.rotation().milli(), 0);
    let viewport = view.viewport();
    assert_eq!(viewport.left.milli(), 0);
    assert_eq!(viewport.top.milli(), 0);
    assert_eq!(viewport.width.milli(), 1000);
    assert_eq!(viewport.height.milli(), 1000);
}

#[test]
fn zoom_by_a_half_halves_the_size() {
    let mut view = View::new();
    view.zoom(Fixed::from_milli(500));
    assert_eq!(view.size(), v(500, 500));
}

#[test]
fn with_center_and_size_sets_exactly_those() {
    let view = View::with_center_and_size(v(10, 20), v(400, 300));
    assert_eq!(view.center(), v(10, 20));
    assert_eq!(view.size(), v(400, 300));
    assert_eq!(view.rotation().milli(), 0);
}

#[test]
fn from_rect_centers_on_the_rectangle() {
    let rect = Rect::new(
        Fixed::from_int(100),
        Fixed::from_int(200),
        Fixed::from_int(400),
        Fixed::from_int(600),
    );
    let view = View::from_rect(rect);
    assert_eq!(view.center(), v(300, 500));
    assert_eq!(view.size(), v(400, 600));
}

#[test]
fn reset_clears_the_rotation_but_not_the_viewport() {
    let mut view = View::new();
    view.set_rotation(Fixed::from_int(45));
    let viewport = Rect::new(
        Fixed::from_milli(0),
        Fixed::from_milli(0),
        Fixed::from_milli(500),
        Fixed::from_milli(1000),
    );
    view.set_viewport(viewport);
    view.reset(Rect::new(
        Fixed::from_int(0),
        Fixed::from_int(0),
        Fixed::from_int(50),
        Fixed::from_int(50),
    ));
    assert_eq!(view.rotation().milli(), 0);
    assert_eq!(view.center(), v(25, 25));
    assert_eq!(view.viewport(), viewport);
}

#[test]
fn move_shifts_the_center_by_the_offset() {
    let mut view = View::new();
    view.move_(v(-600, 30));
    assert_eq!(view.center(), v(-100, 530));
    assert_eq!(view.size(), v(1000, 1000));
}

#[test]
fn rotate_adds_to_the_current_orientation() {
    let mut view = View::new();
    view.set_rotation(Fixed::from_int(10));
    view.rotate(Fixed::from_milli(2500));
    assert_eq!(view.rotation().milli(), 12_500);
}

#[test]
fn rotation_is_kept_in_the_circle() {
    let mut view = View::new();
    // The engine reduces the orientation into [0, 360) degrees.
    view.set_rotation(Fixed::from_int(400));
    assert_eq!(view.rotation().milli(), 40_000);
    view.set_rotation(Fixed::from_int(-90));
    assert_eq!(view.rotation().milli(), 270_000);
    view.set_rotation(Fixed::from_int(360));
    assert_eq!(view.rotation().milli(), 0);
}

#[test]
fn rotate_wraps_past_a_full_turn() {
    let mut view = View::new();
    view.rotate(Fixed::from_int(400));
    assert_eq!(view.rotation().milli(), 40_000);
    view.rotate(Fixed::from_int(-70));
    assert_eq!(view.rotation().milli(), 330_000);
}

#[test]
fn zoom_by_a_negative_factor_flips_the_view() {
    let mut view = View::new();
    view.zoom(Fixed::from_int(-1));
    assert_eq!(view.size(), v(-1000, -1000));
}

#[test]
fn from_rect_accepts_a_negative_extent() {
    let rect = Rect::new(
        Fixed::from_int(100),
        Fixed::from_int(100),
        Fixed::from_int(-50),
        Fixed::from_int(-80),
    );
    let view = View::from_rect(rect);
    assert_eq!(view.center(), v(75, 60));
    assert_eq!(view.size(), v(-50, -80));
}

#[test]
fn to_owned_copies_the_view() {
    let mut view = View::new();
    view.set_center(v(1, 2));
    let copy = view.to_owned();
    view.set_center(v(9, 9));
    assert_eq!(copy.center(), v(1, 2));
    assert_eq!(view.center(), v(9, 9));
}
