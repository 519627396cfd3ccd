use vstd::prelude::*;

use crate::camera::opt_view;
use crate::camera::scale_fits;
use crate::camera::shift_fits;
use crate::camera::spec_camera_default;
use crate::camera::spec_scale;
use crate::camera::spec_shift;
use crate::camera::spec_transform;
use crate::camera::transform_fits;
use crate::camera::Camera;
use crate::camera::CameraV;
use crate::camera::Transform;
use crate::camera::Vec2;
use crate::camera::Vec2V;
use crate::rat::rat_int;
use crate::rat::rat_sub;
use crate::rat::sub_fits;
use crate::rat::Frac;
use crate::rat::Ratio;

verus! {

/// A pointer button; only the left one drives the drag tracker.
#[derive(Clone, Copy, Debug, PartialEq, Eq, Structural)]
pub enum PointerButton {
    Left,
    Other,
}

/// The keys the scene reacts to.
#[derive(Clone, Copy, Debug, PartialEq, Eq, Structural)]
pub enum Key {
    Escape,
    LControl,
    LShift,
    R,
    Other,
}

/// The drag tracker's state: idle, or dragging with the pointer position
/// last consumed by a pan step.
#[derive(Clone, Copy, Debug, PartialEq, Eq, Structural)]
pub enum DragState {
    Idle,
    Dragging(Vec2),
}

/// Pointer state: the current pointer position, sampled on every move
/// event, and the drag tracker.
#[derive(Clone, Copy, Debug, PartialEq, Eq, Structural)]
pub struct MouseData {
    pub current_pos: Vec2,
    pub drag: DragState,
}

impl MouseData {
    pub open spec fn wf(self) -> bool {
        &&& self.current_pos@.wf()
        &&& match self.drag {
            DragState::Dragging(p) => p@.wf(),
            DragState::Idle => true,
        }
    }
}

impl Default for MouseData {
    fn default() -> (r: MouseData)
        ensures
            r.current_pos@ == (Vec2V { x: rat_int(0), y: rat_int(0) }),
            r.drag == DragState::Idle,
            r.wf(),
    {
        MouseData {
            current_pos: Vec2 { x: Frac::from_int(0), y: Frac::from_int(0) },
            drag: DragState::Idle,
        }
    }
}

/// Modifier-key state: two independent booleans.
#[derive(Clone, Copy, Debug, PartialEq, Eq, Structural)]
pub struct KeyData {
    pub control_down: bool,
    pub shift_down: bool,
}

impl Default for KeyData {
    fn default() -> (r: KeyData)
        ensures
            !r.control_down,
            !r.shift_down,
    {
        KeyData { control_down: false, shift_down: false }
    }
}

/// The wheel pan step, `10` world units.
pub open spec fn wheel_step() -> Ratio {
    rat_int(10)
}

/// The wheel zoom-out factor, `19 / 20`.
pub open spec fn wheel_factor_down() -> Ratio {
    Ratio { n: 19, d: 20 }
}

/// The wheel zoom-in factor, `21 / 20`.
pub open spec fn wheel_factor_up() -> Ratio {
    Ratio { n: 21, d: 20 }
}

/// The camera state a wheel event leaves behind. With control or shift
/// held the wheel pans by a fixed step against the wheel sign — both
/// pans fire when both modifiers are held. With no modifier held it
/// zooms by a fixed factor anchored at the current pointer position.
pub open spec fn spec_wheel(c: CameraV, ctrl: bool, shft: bool, down: bool, cur: Vec2V) -> CameraV {
    if ctrl || shft {
        let dx = if down {
            wheel_step()
        } else {
            rat_sub(rat_int(0), wheel_step())
        };
        let c1 = if ctrl {
            spec_shift(c, dx, rat_int(0))
        } else {
            c
        };
        if shft {
            spec_shift(c1, rat_int(0), dx)
        } else {
            c1
        }
    } else {
        let f = if down {
            wheel_factor_down()
        } else {
            wheel_factor_up()
        };
        spec_scale(c, Vec2V { x: f, y: f }, Option::Some(cur))
    }
}

/// Every intermediate of the wheel event's camera work stays in machine
/// range.
pub open spec fn wheel_fits(c: CameraV, ctrl: bool, shft: bool, down: bool, cur: Vec2V) -> bool {
    if ctrl || shft {
        let dx = if down {
            wheel_step()
        } else {
            rat_sub(rat_int(0), wheel_step())
        };
        let c1 = if ctrl {
            spec_shift(c, dx, rat_int(0))
        } else {
            c
        };
        &&& (ctrl ==> shift_fits(c, dx, rat_int(0)))
        &&& (shft ==> shift_fits(c1, rat_int(0), dx))
    } else {
        let f = if down {
            wheel_factor_down()
        } else {
            wheel_factor_up()
        };
        scale_fits(c, Vec2V { x: f, y: f }, Option::Some(cur))
    }
}

/// Every intermediate of the drag tracker's per-frame pan step stays in
/// machine range.
pub open spec fn update_fits(cam: CameraV, drag: DragState, cur: Vec2V) -> bool {
    match drag {
        DragState::Dragging(last) => {
            &&& sub_fits(last@.x, cur.x)
            &&& sub_fits(last@.y, cur.y)
            &&& shift_fits(cam, rat_sub(last@.x, cur.x), rat_sub(last@.y, cur.y))
        },
        DragState::Idle => true,
    }
}

/// Every object's placement can be composed with the camera in machine
/// range.
pub open spec fn objects_fit(cam: CameraV, objs: Seq<(usize, Transform)>) -> bool {
    forall|j: int|
        0 <= j < objs.len() ==> (#[trigger] objs[j]).1@.wf() && transform_fits(cam, objs[j].1@)
}

/// The scene: the drawable objects, each an opaque handle paired with a
/// placement, the camera, and the two input trackers. One scene is owned
/// by one event loop; every operation is synchronous and in place.
pub struct Scene {
    pub objects: Vec<(usize, Transform)>,
    pub camera: Camera,
    pub mouse_data: MouseData,
    pub key_data: KeyData,
}

impl Scene {
    /// An empty scene with the identity camera and idle trackers.
    pub fn new() -> (r: Scene)
        ensures
            r.objects@.len() == 0,
            r.camera@ == spec_camera_default(),
            r.camera@.wf(),
            r.mouse_data.current_pos@ == (Vec2V { x: rat_int(0), y: rat_int(0) }),
            r.mouse_data.drag == DragState::Idle,
            r.mouse_data.wf(),
            !r.key_data.control_down,
            !r.key_data.shift_down,
    {
        Scene {
            objects: Vec::new(),
            camera: Camera::default(),
            mouse_data: MouseData::default(),
            key_data: KeyData::default(),
        }
    }

    /// Adds a drawable: an opaque handle with its world placement.
    pub fn add_object(&mut self, handle: usize, t: Transform)
        ensures
            final(self).objects@ == old(self).objects@.push((handle, t)),
            final(self).camera == old(self).camera,
            final(self).mouse_data == old(self).mouse_data,
            final(self).key_data == old(self).key_data,
    {
        self.objects.push((handle, t));
    }

    /// The once-per-frame drag step: while dragging, pans the camera by
    /// the distance from the last consumed pointer position to the
    /// current one, with the sign reversed (the world follows the
    /// pointer), and consumes the current position.
    pub fn update(&mut self)
        requires
            old(self).camera@.wf(),
            old(self).mouse_data.wf(),
            update_fits(
                old(self).camera@,
                old(self).mouse_data.drag,
                old(self).mouse_data.current_pos@,
            ),
        ensures
            match old(self).mouse_data.drag {
                DragState::Dragging(last) => {
                    &&& final(self).camera@ == spec_shift(
                        old(self).camera@,
                        rat_sub(last@.x, old(self).mouse_data.current_pos@.x),
                        rat_sub(last@.y, old(self).mouse_data.current_pos@.y),
                    )
                    &&& final(self).mouse_data.drag == DragState::Dragging(
                        old(self).mouse_data.current_pos,
                    )
                },
                DragState::Idle => {
                    &&& final(self).camera == old(self).camera
                    &&& final(self).mouse_data.drag == old(self).mouse_data.drag
                },
            },
            final(self).camera@.wf(),
            final(self).mouse_data.current_pos == old(self).mouse_data.current_pos,
            final(self).mouse_data.wf(),
            final(self).objects == old(self).objects,
            final(self).key_data == old(self).key_data,
    {
        match self.mouse_data.drag {
            DragState::Dragging(last) => {
                let dx = last.x.sub(self.mouse_data.current_pos.x);
                let dy = last.y.sub(self.mouse_data.current_pos.y);
                self.mouse_data.drag = DragState::Dragging(self.mouse_data.current_pos);
                self.camera.shift(dx, dy);
            },
            DragState::Idle => {},
        }
    }

    /// The per-frame render query: every object's handle paired with its
    /// screen placement under the current camera.
    pub fn render_placements(&self) -> (r: Vec<(usize, Transform)>)
        requires
            self.camera@.wf(),
            objects_fit(self.camera@, self.objects@),
        ensures
            r@.len() == self.objects@.len(),
            forall|j: int|
                0 <= j < r@.len() ==> (#[trigger] r@[j]).0 == self.objects@[j].0 && r@[j].1@
                    == spec_transform(self.camera@, self.objects@[j].1@),
    {
        let mut out: Vec<(usize, Transform)> = Vec::new();
        let mut i: usize = 0;
        while i < self.objects.len()
            invariant
                i <= self.objects@.len(),
                self.camera@.wf(),
                objects_fit(self.camera@, self.objects@),
                out@.len() == i as int,
                forall|j: int|
                    0 <= j < i as int ==> (#[trigger] out@[j]).0 == self.objects@[j].0
                        && out@[j].1@ == spec_transform(self.camera@, self.objects@[j].1@),
            decreases self.objects@.len() - i,
        {
            let entry = self.objects[i];
            let placed = self.camera.transform(&entry.1);
            out.push((entry.0, placed));
            i = i + 1;
        }
        out
    }

    /// A wheel event; `y` is the wheel delta, and only its sign matters.
    pub fn mouse_wheel_event(&mut self, y: Frac)
        requires
            old(self).camera@.wf(),
            old(self).mouse_data.wf(),
            y@.wf(),
            wheel_fits(
                old(self).camera@,
                old(self).key_data.control_down,
                old(self).key_data.shift_down,
                y@.n < 0,
                old(self).mouse_data.current_pos@,
            ),
        ensures
            final(self).camera@ == spec_wheel(
                old(self).camera@,
                old(self).key_data.control_down,
                old(self).key_data.shift_down,
                y@.n < 0,
                old(self).mouse_data.current_pos@,
            ),
            final(self).camera@.wf(),
            final(self).objects == old(self).objects,
            final(self).mouse_data == old(self).mouse_data,
            final(self).key_data == old(self).key_data,
    {
        if self.key_data.control_down || self.key_data.shift_down {
            if self.key_data.control_down {
                if y.num < 0 {
                    self.camera.shift(Frac::from_int(10), Frac::from_int(0));
                } else {
                    self.camera.shift(Frac::from_int(-10), Frac::from_int(0));
                }
            }
            if self.key_data.shift_down {
                if y.num < 0 {
                    self.camera.shift(Frac::from_int(0), Frac::from_int(10));
                } else {
                    self.camera.shift(Frac::from_int(0), Frac::from_int(-10));
                }
            }
        } else {
            let f = if y.num < 0 {
                Frac::new(19, 20)
            } else {
                Frac::new(21, 20)
            };
            let cur = self.mouse_data.current_pos;
            self.camera.scale(Vec2 { x: f, y: f }, Option::Some(cur));
        }
    }

    /// A pointer move: samples the new pointer position.
    pub fn mouse_motion_event(&mut self, x: Frac, y: Frac)
        ensures
            final(self).mouse_data.current_pos == (Vec2 { x: x, y: y }),
            final(self).mouse_data.drag == old(self).mouse_data.drag,
            final(self).camera == old(self).camera,
            final(self).objects == old(self).objects,
            final(self).key_data == old(self).key_data,
    {
        self.mouse_data.current_pos = Vec2 { x, y };
    }

    /// A pointer-button press: the left button starts a drag at the press
    /// position; other buttons are ignored.
    pub fn mouse_button_down_event(&mut self, button: PointerButton, x: Frac, y: Frac)
        ensures
            button == PointerButton::Left ==> final(self).mouse_data.drag == (
            DragState::Dragging(Vec2 { x: x, y: y })),
            button != PointerButton::Left ==> final(self).mouse_data.drag == old(
                self,
            ).mouse_data.drag,
            final(self).mouse_data.current_pos == old(self).mouse_data.current_pos,
            final(self).camera == old(self).camera,
            final(self).objects == old(self).objects,
            final(self).key_data == old(self).key_data,
    {
        if button == PointerButton::Left {
            self.mouse_data.drag = DragState::Dragging(Vec2 { x, y });
        }
    }

    /// A pointer-button release: the left button ends the drag; other
    /// buttons are ignored.
    pub fn mouse_button_up_event(&mut self, button: PointerButton, x: Frac, y: Frac)
        ensures
            button == PointerButton::Left ==> final(self).mouse_data.drag == DragState::Idle,
            button != PointerButton::Left ==> final(self).mouse_data.drag == old(
                self,
            ).mouse_data.drag,
            final(self).mouse_data.current_pos == old(self).mouse_data.current_pos,
            final(self).camera == old(self).camera,
            final(self).objects == old(self).objects,
            final(self).key_data == old(self).key_data,
    {
        if button == PointerButton::Left {
            self.mouse_data.drag = DragState::Idle;
        }
    }

    /// A key press. Escape requests exit, repeat or not; everything else
    /// acts on the first press of a sequence only: the left modifiers set
    /// their flag, and `R` resets the camera.
    pub fn key_down_event(&mut self, key: Key, repeat: bool) -> (exit: bool)
        ensures
            exit == (key == Key::Escape),
            final(self).key_data.control_down == (old(self).key_data.control_down || (!repeat
                && key == Key::LControl)),
            final(self).key_data.shift_down == (old(self).key_data.shift_down || (!repeat && key
                == Key::LShift)),
            (!repeat && key == Key::R) ==> final(self).camera@ == spec_camera_default(),
            !(!repeat && key == Key::R) ==> final(self).camera == old(self).camera,
            final(self).mouse_data == old(self).mouse_data,
            final(self).objects == old(self).objects,
    {
        let exit = key == Key::Escape;
        if !repeat {
            if key == Key::LControl {
                self.key_data.control_down = true;
            }
            if key == Key::LShift {
                self.key_data.shift_down = true;
            }
            if key == Key::R {
                self.camera.reset();
            }
        }
        exit
    }

    /// A key release: the left modifiers clear their flag.
    pub fn key_up_event(&mut self, key: Key)
        ensures
            final(self).key_data.control_down == (old(self).key_data.control_down && key
                != Key::LControl),
            final(self).key_data.shift_down == (old(self).key_data.shift_down && key
                != Key::LShift),
            final(self).camera == old(self).camera,
            final(self).mouse_data == old(self).mouse_data,
            final(self).objects == old(self).objects,
    {
        if key == Key::LControl {
            self.key_data.control_down = false;
        }
        if key == Key::LShift {
            self.key_data.shift_down = false;
        }
    }
}

} // verus!
