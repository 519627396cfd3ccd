use camera2d::camera::Transform;
use camera2d::camera::Vec2;
use camera2d::rat::Frac;
use camera2d::scene::DragState;
use camera2d::scene::Key;
use camera2d::scene::PointerButton;
use camera2d::scene::Scene;

fn fi(i: i128) -> Frac {
    Frac::from_int(i)
}

fn fr(num: i128, den: i128) -> Frac {
    Frac::new(num, den)
}

fn v2(x: Frac, y: Frac) -> Vec2 {
    Vec2::new(x, y)
}

#[test]
fn scene_starts_at_defaults() {
    let scene = Scene::new();
    assert_eq!(scene.objects.len(), 0);
    assert!(scene.camera.pos.x.same_value(fi(0)));
    assert!(scene.camera.scale.y.same_value(fi(1)));
    assert_eq!(scene.mouse_data.drag, DragState::Idle);
    assert!(!scene.key_data.control_down);
    assert!(!scene.key_data.shift_down);
}

#[test]
fn drag_pans_against_pointer_motion() {
    let mut scene = Scene::new();
    scene.mouse_button_down_event(PointerButton::Left, fi(100), fi(100));
    scene.mouse_motion_event(fi(120), fi(130));
    scene.update();
    assert!(scene.camera.pos.x.same_value(fi(-20)));
    assert!(scene.camera.pos.y.same_value(fi(-30)));
    assert_eq!(scene.mouse_data.drag, DragState::Dragging(v2(fi(120), fi(130))));
}

#[test]
fn drag_consumes_position_each_frame() {
    let mut scene = Scene::new();
    scene.mouse_button_down_event(PointerButton::Left, fi(0), fi(0));
    scene.mouse_motion_event(fi(10), fi(0));
    scene.update();
    scene.update();
    assert!(scene.camera.pos.x.same_value(fi(-10)));
    assert!(scene.camera.pos.y.same_value(fi(0)));
}

#[test]
fn release_ends_drag() {
    let mut scene = Scene::new();
    scene.mouse_button_down_event(PointerButton::Left, fi(5), fi(5));
    scene.mouse_button_up_event(PointerButton::Left, fi(5), fi(5));
    scene.mouse_motion_event(fi(50), fi(50));
    scene.update();
    assert!(scene.camera.pos.x.same_value(fi(0)));
    assert_eq!(scene.mouse_data.drag, DragState::Idle);
}

#[test]
fn other_button_is_ignored() {
    let mut scene = Scene::new();
    scene.mouse_button_down_event(PointerButton::Other, fi(5), fi(5));
    assert_eq!(scene.mouse_data.drag, DragState::Idle);
}

#[test]
fn wheel_down_with_control_pans_right() {
    let mut scene = Scene::new();
    scene.key_down_event(Key::LControl, false);
    scene.mouse_wheel_event(fi(-1));
    assert!(scene.camera.pos.x.same_value(fi(10)));
    assert!(scene.camera.pos.y.same_value(fi(0)));
    assert!(scene.camera.scale.x.same_value(fi(1)));
}

#[test]
fn wheel_up_with_shift_pans_up() {
    let mut scene = Scene::new();
    scene.key_down_event(Key::LShift, false);
    scene.mouse_wheel_event(fi(1));
    assert!(scene.camera.pos.x.same_value(fi(0)));
    assert!(scene.camera.pos.y.same_value(fi(-10)));
    assert!(scene.camera.scale.y.same_value(fi(1)));
}

#[test]
fn wheel_with_both_modifiers_pans_both_axes() {
    let mut scene = Scene::new();
    scene.key_down_event(Key::LControl, false);
    scene.key_down_event(Key::LShift, false);
    scene.mouse_wheel_event(fi(-1));
    assert!(scene.camera.pos.x.same_value(fi(10)));
    assert!(scene.camera.pos.y.same_value(fi(10)));
    assert!(scene.camera.scale.x.same_value(fi(1)));
}

#[test]
fn wheel_without_modifiers_zooms_at_pointer() {
    let mut scene = Scene::new();
    scene.mouse_motion_event(fi(50), fi(60));
    let before = scene.camera.reverse_transform(v2(fi(50), fi(60)));
    scene.mouse_wheel_event(fi(-1));
    assert!(scene.camera.scale.x.same_value(fr(19, 20)));
    assert!(scene.camera.scale.y.same_value(fr(19, 20)));
    let after = scene.camera.reverse_transform(v2(fi(50), fi(60)));
    assert!(after.x.same_value(before.x));
    assert!(after.y.same_value(before.y));
}

#[test]
fn wheel_up_without_modifiers_zooms_in() {
    let mut scene = Scene::new();
    scene.mouse_wheel_event(fi(1));
    assert!(scene.camera.scale.x.same_value(fr(21, 20)));
    assert!(scene.camera.scale.y.same_value(fr(21, 20)));
}

#[test]
fn escape_requests_exit() {
    let mut scene = Scene::new();
    assert!(scene.key_down_event(Key::Escape, false));
    assert!(scene.key_down_event(Key::Escape, true));
    assert!(!scene.key_down_event(Key::R, false));
    assert!(!scene.key_down_event(Key::Other, false));
}

#[test]
fn key_repeat_is_ignored_for_modifiers_and_reset() {
    let mut scene = Scene::new();
    scene.key_down_event(Key::LControl, true);
    assert!(!scene.key_data.control_down);
    scene.camera.shift(fi(5), fi(5));
    scene.key_down_event(Key::R, true);
    assert!(scene.camera.pos.x.same_value(fi(5)));
    scene.key_down_event(Key::R, false);
    assert!(scene.camera.pos.x.same_value(fi(0)));
    assert!(scene.camera.scale.x.same_value(fi(1)));
}

#[test]
fn key_up_clears_modifiers() {
    let mut scene = Scene::new();
    scene.key_down_event(Key::LControl, false);
    scene.key_down_event(Key::LShift, false);
    assert!(scene.key_data.control_down);
    assert!(scene.key_data.shift_down);
    scene.key_up_event(Key::LControl);
    assert!(!scene.key_data.control_down);
    assert!(scene.key_data.shift_down);
    scene.key_up_event(Key::LShift);
    assert!(!scene.key_data.shift_down);
}

#[test]
fn render_places_every_object() {
    let mut scene = Scene::new();
    let t1 = Transform::new(v2(fi(5), fi(6)), v2(fi(2), fi(3)));
    let t2 = Transform::default();
    scene.add_object(7, t1);
    scene.add_object(9, t2);
    scene.camera.shift(fi(1), fi(2));
    let placed = scene.render_placements();
    assert_eq!(placed.len(), 2);
    assert_eq!(placed[0].0, 7);
    assert!(placed[0].1.pos.x.same_value(fi(4)));
    assert!(placed[0].1.pos.y.same_value(fi(4)));
    assert!(placed[0].1.scale.x.same_value(fi(2)));
    assert!(placed[0].1.scale.y.same_value(fi(3)));
    assert_eq!(placed[1].0, 9);
    assert!(placed[1].1.pos.x.same_value(fi(-1)));
    assert!(placed[1].1.pos.y.same_value(fi(-2)));
}
