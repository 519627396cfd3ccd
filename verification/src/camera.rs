use vstd::prelude::*;

use crate::rat::add_fits;
use crate::rat::div_fits;
use crate::rat::lemma_pos_mul;
use crate::rat::mul_fits;
use crate::rat::rat_add;
use crate::rat::rat_div;
use crate::rat::rat_int;
use crate::rat::rat_mul;
use crate::rat::rat_sub;
use crate::rat::sub_fits;
use crate::rat::Frac;
use crate::rat::Ratio;

verus! {

/// A pair of rational coordinates.
#[derive(Clone, Copy, Debug, PartialEq, Eq, Structural)]
pub struct Vec2 {
    pub x: Frac,
    pub y: Frac,
}

/// Spec view of [`Vec2`]: a pair of ratios.
#[verifier::ext_equal]
pub struct Vec2V {
    pub x: Ratio,
    pub y: Ratio,
}

impl Vec2V {
    pub open spec fn wf(self) -> bool {
        self.x.wf() && self.y.wf()
    }
}

impl View for Vec2 {
    type V = Vec2V;

    open spec fn view(&self) -> Vec2V {
        Vec2V { x: self.x@, y: self.y@ }
    }
}

impl Vec2 {
    pub fn new(x: Frac, y: Frac) -> (r: Vec2)
        ensures
            r@ == (Vec2V { x: x@, y: y@ }),
    {
        Vec2 { x, y }
    }
}

/// An object's placement: a world-space position and a per-axis scale.
/// Immutable by value; the camera combines it into a screen placement.
#[derive(Clone, Copy, Debug, PartialEq, Eq, Structural)]
pub struct Transform {
    pub pos: Vec2,
    pub scale: Vec2,
}

/// Spec view of [`Transform`].
#[verifier::ext_equal]
pub struct TransformV {
    pub pos: Vec2V,
    pub scale: Vec2V,
}

impl TransformV {
    pub open spec fn wf(self) -> bool {
        self.pos.wf() && self.scale.wf()
    }
}

impl View for Transform {
    type V = TransformV;

    open spec fn view(&self) -> TransformV {
        TransformV { pos: self.pos@, scale: self.scale@ }
    }
}

/// The identity placement: position `(0, 0)`, scale `(1, 1)`.
pub open spec fn spec_transform_default() -> TransformV {
    TransformV {
        pos: Vec2V { x: rat_int(0), y: rat_int(0) },
        scale: Vec2V { x: rat_int(1), y: rat_int(1) },
    }
}

impl Transform {
    pub fn new(pos: Vec2, scale: Vec2) -> (r: Transform)
        ensures
            r@ == (TransformV { pos: pos@, scale: scale@ }),
    {
        Transform { pos, scale }
    }
}

impl Default for Transform {
    fn default() -> (r: Transform)
        ensures
            r@ == spec_transform_default(),
    {
        Transform {
            pos: Vec2 { x: Frac::from_int(0), y: Frac::from_int(0) },
            scale: Vec2 { x: Frac::from_int(1), y: Frac::from_int(1) },
        }
    }
}

/// The viewport camera: a world-space offset subtracted during projection
/// and a per-axis zoom factor.
#[derive(Clone, Copy, Debug, PartialEq, Eq, Structural)]
pub struct Camera {
    pub pos: Vec2,
    pub scale: Vec2,
}

/// Spec view of [`Camera`].
#[verifier::ext_equal]
pub struct CameraV {
    pub pos: Vec2V,
    pub scale: Vec2V,
}

impl CameraV {
    /// Well-formed camera state: all denominators positive, and both
    /// scale components strictly positive.
    pub open spec fn wf(self) -> bool {
        &&& self.pos.wf()
        &&& self.scale.wf()
        &&& self.scale.x.is_pos()
        &&& self.scale.y.is_pos()
    }
}

impl View for Camera {
    type V = CameraV;

    open spec fn view(&self) -> CameraV {
        CameraV { pos: self.pos@, scale: self.scale@ }
    }
}

/// The camera state after `reset`: position `(0, 0)`, scale `(1, 1)`.
pub open spec fn spec_camera_default() -> CameraV {
    CameraV {
        pos: Vec2V { x: rat_int(0), y: rat_int(0) },
        scale: Vec2V { x: rat_int(1), y: rat_int(1) },
    }
}

/// The camera state after `reset`, whatever the camera held before.
pub open spec fn spec_reset(c: CameraV) -> CameraV {
    spec_camera_default()
}

/// The camera state after `shift(dx, dy)`: the offset grows by the delta,
/// the scale is untouched.
pub open spec fn spec_shift(c: CameraV, dx: Ratio, dy: Ratio) -> CameraV {
    CameraV {
        pos: Vec2V { x: rat_add(c.pos.x, dx), y: rat_add(c.pos.y, dy) },
        scale: c.scale,
    }
}

/// The world point shown at screen point `p`:
/// `world = p / scale + pos / scale`, per axis.
pub open spec fn spec_reverse_transform(c: CameraV, p: Vec2V) -> Vec2V {
    Vec2V {
        x: rat_add(rat_div(p.x, c.scale.x), rat_div(c.pos.x, c.scale.x)),
        y: rat_add(rat_div(p.y, c.scale.y), rat_div(c.pos.y, c.scale.y)),
    }
}

/// The screen placement of an object placed at `t`:
/// the position is translated by the camera offset in world units, the
/// scale is multiplied by the camera scale. Deliberately asymmetric to
/// [`spec_reverse_transform`]: the forward translation is not divided by
/// the camera scale, while the anchor math of the zoom depends on the
/// inverse mapping which is.
pub open spec fn spec_transform(c: CameraV, t: TransformV) -> TransformV {
    TransformV {
        pos: Vec2V {
            x: rat_sub(t.pos.x, c.pos.x),
            y: rat_sub(t.pos.y, c.pos.y),
        },
        scale: Vec2V {
            x: rat_mul(t.scale.x, c.scale.x),
            y: rat_mul(t.scale.y, c.scale.y),
        },
    }
}

/// One axis of an anchored zoom, in the order the camera performs it:
/// read the world coordinate under the anchor, multiply the scale, read
/// it again under the new scale, and pan by the drift times the new
/// scale. Returns the new (position, scale) for the axis.
pub open spec fn spec_zoom_axis(pos: Ratio, sc: Ratio, factor: Ratio, anchor: Ratio) -> (
    Ratio,
    Ratio,
) {
    let s2 = rat_mul(sc, factor);
    let pre = rat_add(rat_div(anchor, sc), rat_div(pos, sc));
    let post = rat_add(rat_div(anchor, s2), rat_div(pos, s2));
    let delta = rat_mul(rat_sub(pre, post), s2);
    (rat_add(pos, delta), s2)
}

/// Every intermediate of one axis of an anchored zoom stays in machine
/// range.
pub open spec fn zoom_axis_fits(pos: Ratio, sc: Ratio, factor: Ratio, anchor: Ratio) -> bool {
    let s2 = rat_mul(sc, factor);
    let pre = rat_add(rat_div(anchor, sc), rat_div(pos, sc));
    let post = rat_add(rat_div(anchor, s2), rat_div(pos, s2));
    let delta = rat_mul(rat_sub(pre, post), s2);
    &&& mul_fits(sc, factor)
    &&& div_fits(anchor, sc)
    &&& div_fits(pos, sc)
    &&& add_fits(rat_div(anchor, sc), rat_div(pos, sc))
    &&& div_fits(anchor, s2)
    &&& div_fits(pos, s2)
    &&& add_fits(rat_div(anchor, s2), rat_div(pos, s2))
    &&& sub_fits(pre, post)
    &&& mul_fits(rat_sub(pre, post), s2)
    &&& add_fits(pos, delta)
}

/// The camera state after `scale(factor, fixed)`: the scale always grows
/// component-wise by `factor`; with an anchor, each axis additionally
/// pans so that the world point under the anchor stays on it.
pub open spec fn spec_scale(c: CameraV, factor: Vec2V, fixed: Option<Vec2V>) -> CameraV {
    match fixed {
        Option::Some(a) => {
            let zx = spec_zoom_axis(c.pos.x, c.scale.x, factor.x, a.x);
            let zy = spec_zoom_axis(c.pos.y, c.scale.y, factor.y, a.y);
            CameraV {
                pos: Vec2V { x: zx.0, y: zy.0 },
                scale: Vec2V { x: zx.1, y: zy.1 },
            }
        },
        Option::None => {
            CameraV {
                pos: c.pos,
                scale: Vec2V {
                    x: rat_mul(c.scale.x, factor.x),
                    y: rat_mul(c.scale.y, factor.y),
                },
            }
        },
    }
}

/// The anchor option as a spec value.
pub open spec fn opt_view(o: Option<Vec2>) -> Option<Vec2V> {
    match o {
        Option::Some(v) => Option::Some(v@),
        Option::None => Option::None,
    }
}

/// An absent anchor, or a well-formed one.
pub open spec fn opt_wf(o: Option<Vec2V>) -> bool {
    match o {
        Option::Some(v) => v.wf(),
        Option::None => true,
    }
}

/// Every intermediate of `shift(dx, dy)` stays in machine range.
pub open spec fn shift_fits(c: CameraV, dx: Ratio, dy: Ratio) -> bool {
    &&& add_fits(c.pos.x, dx)
    &&& add_fits(c.pos.y, dy)
}

/// Every intermediate of `scale(factor, fixed)` stays in machine range.
pub open spec fn scale_fits(c: CameraV, factor: Vec2V, fixed: Option<Vec2V>) -> bool {
    match fixed {
        Option::Some(a) => {
            &&& zoom_axis_fits(c.pos.x, c.scale.x, factor.x, a.x)
            &&& zoom_axis_fits(c.pos.y, c.scale.y, factor.y, a.y)
        },
        Option::None => {
            &&& mul_fits(c.scale.x, factor.x)
            &&& mul_fits(c.scale.y, factor.y)
        },
    }
}

/// Every intermediate of `reverse_transform(p)` stays in machine range.
pub open spec fn reverse_fits(c: CameraV, p: Vec2V) -> bool {
    &&& div_fits(p.x, c.scale.x)
    &&& div_fits(c.pos.x, c.scale.x)
    &&& add_fits(rat_div(p.x, c.scale.x), rat_div(c.pos.x, c.scale.x))
    &&& div_fits(p.y, c.scale.y)
    &&& div_fits(c.pos.y, c.scale.y)
    &&& add_fits(rat_div(p.y, c.scale.y), rat_div(c.pos.y, c.scale.y))
}

/// Every intermediate of `transform(t)` stays in machine range.
pub open spec fn transform_fits(c: CameraV, t: TransformV) -> bool {
    &&& sub_fits(t.pos.x, c.pos.x)
    &&& sub_fits(t.pos.y, c.pos.y)
    &&& mul_fits(t.scale.x, c.scale.x)
    &&& mul_fits(t.scale.y, c.scale.y)
}

/// One axis of an anchored zoom, exactly as [`spec_zoom_axis`] states it.
fn zoom_axis(pos: Frac, sc: Frac, factor: Frac, anchor: Frac) -> (r: (Frac, Frac))
    requires
        pos@.wf(),
        sc@.wf(),
        sc@.is_pos(),
        factor@.wf(),
        factor@.is_pos(),
        anchor@.wf(),
        zoom_axis_fits(pos@, sc@, factor@, anchor@),
    ensures
        (r.0@, r.1@) == spec_zoom_axis(pos@, sc@, factor@, anchor@),
        r.0@.wf(),
        r.1@.wf(),
        r.1@.is_pos(),
{
    proof {
        lemma_pos_mul(sc@.n, factor@.n);
    }
    let s2 = sc.mul(factor);
    let pre = anchor.div(sc).add(pos.div(sc));
    let post = anchor.div(s2).add(pos.div(s2));
    let delta = pre.sub(post).mul(s2);
    (pos.add(delta), s2)
}

impl Camera {
    pub fn new(pos: Vec2, scale: Vec2) -> (r: Camera)
        ensures
            r@ == (CameraV { pos: pos@, scale: scale@ }),
    {
        Camera { pos, scale }
    }

    /// Adds `(dx, dy)` to the camera offset; the scale is untouched.
    pub fn shift(&mut self, dx: Frac, dy: Frac)
        requires
            old(self)@.wf(),
            dx@.wf(),
            dy@.wf(),
            shift_fits(old(self)@, dx@, dy@),
        ensures
            final(self)@ == spec_shift(old(self)@, dx@, dy@),
            final(self)@.wf(),
    {
        self.pos.x = self.pos.x.add(dx);
        self.pos.y = self.pos.y.add(dy);
    }

    /// Multiplies the scale component-wise by `scale`. With `fixed` given,
    /// the zoom is anchored: the world point shown at that screen point
    /// before the zoom is shown at the same screen point after it (see
    /// [`crate::laws::lemma_anchored_zoom_fixed_point`]). The scale is
    /// multiplied first and the compensating pan is computed from the new
    /// scale; that order is load-bearing.
    pub fn scale(&mut self, scale: Vec2, fixed: Option<Vec2>)
        requires
            old(self)@.wf(),
            scale@.wf(),
            scale@.x.is_pos(),
            scale@.y.is_pos(),
            opt_wf(opt_view(fixed)),
            scale_fits(old(self)@, scale@, opt_view(fixed)),
        ensures
            final(self)@ == spec_scale(old(self)@, scale@, opt_view(fixed)),
            final(self)@.wf(),
    {
        match fixed {
            Option::Some(fixed) => {
                let zx = zoom_axis(self.pos.x, self.scale.x, scale.x, fixed.x);
                let zy = zoom_axis(self.pos.y, self.scale.y, scale.y, fixed.y);
                self.pos.x = zx.0;
                self.scale.x = zx.1;
                self.pos.y = zy.0;
                self.scale.y = zy.1;
            },
            Option::None => {
                proof {
                    lemma_pos_mul(self@.scale.x.n, scale@.x.n);
                    lemma_pos_mul(self@.scale.y.n, scale@.y.n);
                }
                self.scale.x = self.scale.x.mul(scale.x);
                self.scale.y = self.scale.y.mul(scale.y);
            },
        }
    }

    /// Restores the identity camera: position `(0, 0)`, scale `(1, 1)`.
    pub fn reset(&mut self)
        ensures
            final(self)@ == spec_reset(old(self)@),
            final(self)@ == spec_camera_default(),
            final(self)@.wf(),
    {
        self.pos = Vec2 { x: Frac::from_int(0), y: Frac::from_int(0) };
        self.scale = Vec2 { x: Frac::from_int(1), y: Frac::from_int(1) };
    }

    /// The world point shown at screen point `p`.
    pub fn reverse_transform(&self, p: Vec2) -> (r: Vec2)
        requires
            self@.wf(),
            p@.wf(),
            reverse_fits(self@, p@),
        ensures
            r@ == spec_reverse_transform(self@, p@),
            r@.wf(),
    {
        Vec2 {
            x: p.x.div(self.scale.x).add(self.pos.x.div(self.scale.x)),
            y: p.y.div(self.scale.y).add(self.pos.y.div(self.scale.y)),
        }
    }

    /// The screen placement of an object placed at `input`.
    pub fn transform(&self, input: &Transform) -> (t: Transform)
        requires
            self@.wf(),
            input@.wf(),
            transform_fits(self@, input@),
        ensures
            t@ == spec_transform(self@, input@),
            t@.wf(),
    {
        Transform {
            pos: Vec2 {
                x: input.pos.x.sub(self.pos.x),
                y: input.pos.y.sub(self.pos.y),
            },
            scale: Vec2 {
                x: input.scale.x.mul(self.scale.x),
                y: input.scale.y.mul(self.scale.y),
            },
        }
    }
}

impl Default for Camera {
    fn default() -> (r: Camera)
        ensures
            r@ == spec_camera_default(),
            r@.wf(),
    {
        Camera {
            pos: Vec2 { x: Frac::from_int(0), y: Frac::from_int(0) },
            scale: Vec2 { x: Frac::from_int(1), y: Frac::from_int(1) },
        }
    }
}

} // verus!
