use camera2d::camera::Camera;
use camera2d::camera::Transform;
use camera2d::camera::Vec2;
use camera2d::rat::Frac;

fn fr(num: i128, den: i128) -> Frac {
    Frac::new(num, den)
}

fn fi(i: i128) -> Frac {
    Frac::from_int(i)
}

fn v2(x: Frac, y: Frac) -> Vec2 {
    Vec2::new(x, y)
}

#[test]
fn arithmetic_exact_values() {
    assert!(fr(1, 2).add(fr(1, 3)).same_value(fr(5, 6)));
    assert!(fr(1, 2).sub(fr(1, 3)).same_value(fr(1, 6)));
    assert!(fr(1, 2).mul(fr(2, 3)).same_value(fr(1, 3)));
    assert!(fr(1, 2).div(fr(1, 3)).same_value(fr(3, 2)));
    assert!(!fr(1, 2).same_value(fr(1, 3)));
    assert!(fr(1, 2).same_value(fr(2, 4)));
}

#[test]
fn division_by_negative_value() {
    let q = fr(1, 2).div(Frac { num: -2, den: 3 });
    assert!(q.den > 0);
    assert!(q.same_value(Frac { num: -3, den: 4 }));
}

#[test]
fn reset_gives_identity_transform() {
    let mut cam = Camera::new(v2(fi(9), fi(-4)), v2(fr(3, 2), fi(5)));
    cam.reset();
    let t = Transform::new(v2(fr(7, 3), fi(-11)), v2(fi(2), fr(5, 4)));
    let placed = cam.transform(&t);
    assert_eq!(placed, t);
}

#[test]
fn pan_shifts_screen_position() {
    let mut cam = Camera::new(v2(fi(3), fi(4)), v2(fi(1), fi(1)));
    let t = Transform::new(v2(fi(100), fi(50)), v2(fi(2), fi(3)));
    let before = cam.transform(&t);
    cam.shift(fi(10), fi(20));
    let after = cam.transform(&t);
    assert!(after.pos.x.same_value(fi(87)));
    assert!(after.pos.y.same_value(fi(26)));
    assert!(after.pos.x.same_value(before.pos.x.sub(fi(10))));
    assert!(after.pos.y.same_value(before.pos.y.sub(fi(20))));
    assert_eq!(after.scale, before.scale);
}

#[test]
fn transform_scales_object_scale() {
    let cam = Camera::new(v2(fi(0), fi(0)), v2(fi(2), fr(1, 2)));
    let t = Transform::new(v2(fi(10), fi(10)), v2(fi(3), fi(4)));
    let placed = cam.transform(&t);
    assert!(placed.scale.x.same_value(fi(6)));
    assert!(placed.scale.y.same_value(fi(2)));
    assert!(placed.pos.x.same_value(fi(10)));
    assert!(placed.pos.y.same_value(fi(10)));
}

#[test]
fn reverse_transform_formula() {
    let cam = Camera::new(v2(fi(10), fi(20)), v2(fi(2), fi(4)));
    let w = cam.reverse_transform(v2(fi(30), fi(40)));
    assert!(w.x.same_value(fi(20)));
    assert!(w.y.same_value(fi(15)));
}

#[test]
fn anchored_zoom_keeps_fixed_point() {
    let mut cam = Camera::new(v2(fr(7, 2), fi(-3)), v2(fi(2), fr(1, 2)));
    let p = v2(fi(123), fi(45));
    let before = cam.reverse_transform(p);
    cam.scale(v2(fr(19, 20), fr(19, 20)), Some(p));
    let after = cam.reverse_transform(p);
    assert!(after.x.same_value(before.x));
    assert!(after.y.same_value(before.y));
}

#[test]
fn unanchored_zoom_multiplies_scale_only() {
    let mut cam = Camera::new(v2(fi(5), fi(6)), v2(fi(2), fi(3)));
    cam.scale(v2(fr(3, 2), fi(2)), None);
    assert!(cam.scale.x.same_value(fi(3)));
    assert!(cam.scale.y.same_value(fi(6)));
    assert!(cam.pos.x.same_value(fi(5)));
    assert!(cam.pos.y.same_value(fi(6)));
}

#[test]
fn reset_idempotent() {
    let mut once = Camera::new(v2(fi(9), fi(8)), v2(fi(7), fi(6)));
    let mut twice = Camera::new(v2(fi(9), fi(8)), v2(fi(7), fi(6)));
    once.reset();
    twice.reset();
    twice.reset();
    assert_eq!(once, twice);
}

#[test]
fn anchored_zoom_double_at_default() {
    let mut cam = Camera::default();
    let p = v2(fi(250), fi(250));
    let before = cam.reverse_transform(p);
    assert!(before.x.same_value(fi(250)));
    assert!(before.y.same_value(fi(250)));
    cam.scale(v2(fi(2), fi(2)), Some(p));
    let after = cam.reverse_transform(p);
    assert!(after.x.same_value(before.x));
    assert!(after.y.same_value(before.y));
    assert!(after.x.same_value(fi(250)));
    assert!(after.y.same_value(fi(250)));
}

#[test]
fn transform_default_is_identity_placement() {
    let t = Transform::default();
    assert!(t.pos.x.same_value(fi(0)));
    assert!(t.pos.y.same_value(fi(0)));
    assert!(t.scale.x.same_value(fi(1)));
    assert!(t.scale.y.same_value(fi(1)));
}
