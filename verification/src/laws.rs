use vstd::prelude::*;

use crate::camera::spec_camera_default;
use crate::camera::spec_reset;
use crate::camera::spec_reverse_transform;
use crate::camera::spec_scale;
use crate::camera::spec_shift;
use crate::camera::spec_transform;
use crate::camera::spec_zoom_axis;
use crate::camera::CameraV;
use crate::camera::TransformV;
use crate::camera::Vec2V;
use crate::rat::lemma_pos_mul;
use crate::rat::rat_add;
use crate::rat::rat_div;
use crate::rat::rat_eq;
use crate::rat::rat_mul;
use crate::rat::rat_sub;
use crate::rat::Ratio;

verus! {

/// A freshly reset camera is the identity: composing it with any
/// placement returns that placement unchanged.
pub proof fn lemma_reset_transform_identity(t: TransformV)
    ensures
        spec_transform(spec_camera_default(), t) == t,
{
    assert(spec_transform(spec_camera_default(), t) =~~= t);
}

/// Subtracting a sum is subtracting both parts in turn, exactly, field
/// by field.
pub proof fn lemma_rat_sub_add(a: Ratio, b: Ratio, d: Ratio)
    ensures
        rat_sub(a, rat_add(b, d)) == rat_sub(rat_sub(a, b), d),
{
    broadcast use vstd::arithmetic::mul::group_mul_properties;

    assert(a.n * (b.d * d.d) - (b.n * d.d + d.n * b.d) * a.d == (a.n * b.d - b.n * a.d) * d.d
        - d.n * (a.d * b.d));
    assert(a.d * (b.d * d.d) == (a.d * b.d) * d.d);
}

/// Panning commutes with the forward transform: after `shift(dx, dy)`,
/// every placement's screen position is the one the unshifted camera
/// gave, shifted by `-(dx, dy)`; its screen scale is unchanged.
pub proof fn lemma_pan_transform(c: CameraV, dx: Ratio, dy: Ratio, t: TransformV)
    ensures
        spec_transform(spec_shift(c, dx, dy), t).pos.x == rat_sub(
            rat_sub(t.pos.x, c.pos.x),
            dx,
        ),
        spec_transform(spec_shift(c, dx, dy), t).pos.y == rat_sub(
            rat_sub(t.pos.y, c.pos.y),
            dy,
        ),
        spec_transform(spec_shift(c, dx, dy), t).scale == spec_transform(c, t).scale,
{
    lemma_rat_sub_add(t.pos.x, c.pos.x, dx);
    lemma_rat_sub_add(t.pos.y, c.pos.y, dy);
}

/// Resetting is idempotent: the state after two resets is the state
/// after one, whatever the camera held before.
pub proof fn lemma_reset_idempotent(c: CameraV)
    ensures
        spec_reset(spec_reset(c)) == spec_reset(c),
{
}

/// The numerator and denominator of `a / s + p / s`, gathered: the
/// numerator is `den * num` times the cross sum `t`, the denominator
/// the product of the input denominators times `num` squared.
proof fn lemma_rev_form(a_n: int, a_d: int, p_n: int, p_d: int, num: int, den: int, t: int)
    requires
        t == a_n * p_d + p_n * a_d,
    ensures
        (a_n * den) * (p_d * num) + (p_n * den) * (a_d * num) == (den * num) * t,
        (a_d * num) * (p_d * num) == (a_d * p_d) * (num * num),
{
    broadcast use vstd::arithmetic::mul::group_mul_properties;

    assert((a_n * den) * (p_d * num) + (p_n * den) * (a_d * num) == (den * num) * (a_n * p_d
        + p_n * a_d));
}

/// Regroups the squared new scale: `c0 * h^2 == (c0 * s_n^2) * k_n^2`.
proof fn lemma_hh_regroup(c0: int, s_n: int, k_n: int)
    ensures
        c0 * ((s_n * k_n) * (s_n * k_n)) == (c0 * (s_n * s_n)) * (k_n * k_n),
{
    broadcast use vstd::arithmetic::mul::group_mul_properties;

    assert(c0 * ((s_n * k_n) * (s_n * k_n)) == (c0 * (s_n * s_n)) * (k_n * k_n));
}

/// Factors the drift numerator: the cross difference of the two
/// readings is `t * e` times the scale difference.
proof fn lemma_sb_form(w: int, t: int, e: int, r: int, v: int, h: int)
    ensures
        (w * t) * (e * r) - ((v * h) * t) * e == (t * e) * (w * r - v * h),
{
    broadcast use vstd::arithmetic::mul::group_mul_properties;

    assert((w * t) * (e * r) - ((v * h) * t) * e == (t * e) * (w * r - v * h));
}

/// Gathers the reading under the anchor after the compensating pan
/// into one product over the cross sum `t`.
proof fn lemma_after_form(
    a_n: int,
    a_d: int,
    p_n: int,
    p_d: int,
    v: int,
    h: int,
    dd: int,
    x0: int,
    t: int,
    c0: int,
)
    requires
        t == a_n * p_d + p_n * a_d,
        c0 == a_d * p_d,
    ensures
        (a_n * v) * ((p_d * dd) * h) + ((p_n * dd + (x0 * h) * p_d) * v) * (a_d * h) == (v * h)
            * (dd * t + (x0 * h) * c0),
        (a_d * h) * ((p_d * dd) * h) == (c0 * (h * h)) * dd,
{
    broadcast use vstd::arithmetic::mul::group_mul_properties;

    assert((a_n * v) * ((p_d * dd) * h) + ((p_n * dd + (x0 * h) * p_d) * v) * (a_d * h) == (v
        * h) * (dd * (a_n * p_d + p_n * a_d) + (x0 * h) * (a_d * p_d)));
    assert((a_d * h) * ((p_d * dd) * h) == ((a_d * p_d) * (h * h)) * dd);
}

/// Pulls the common factor `t * e` out of both summands of the new
/// numerator.
proof fn lemma_q_gather(t: int, e: int, r: int, v: int, y0: int, h: int, w: int)
    ensures
        ((e * (e * r)) * v) * t == (t * e) * ((e * r) * v),
        (((t * e) * (w * r - v * h)) * h) * y0 == (t * e) * (((w * r - v * h) * h) * y0),
{
    broadcast use vstd::arithmetic::mul::group_mul_properties;

    assert(((e * (e * r)) * v) * t == (t * e) * ((e * r) * v));
    assert((((t * e) * (w * r - v * h)) * h) * y0 == (t * e) * (((w * r - v * h) * h) * y0));
}

/// Distributes a difference over the two trailing factors.
proof fn lemma_dist_sub(wr: int, vh: int, h: int, c0: int)
    ensures
        ((wr - vh) * h) * c0 == (wr * h) * c0 - (vh * h) * c0,
{
    broadcast use vstd::arithmetic::mul::group_mul_properties;

    assert(((wr - vh) * h) * c0 == (wr * h) * c0 - (vh * h) * c0);
}

/// Reorders one product of scale components.
proof fn lemma_mono_a(s_d: int, s_n: int, k_n: int, c0: int)
    ensures
        (((s_d * s_n) * (k_n * k_n)) * (s_n * k_n)) * c0 == (s_d * k_n) * ((c0 * (s_n * s_n))
            * (k_n * k_n)),
{
    broadcast use vstd::arithmetic::mul::group_mul_properties;

    assert((((s_d * s_n) * (k_n * k_n)) * (s_n * k_n)) * c0 == (s_d * k_n) * ((c0 * (s_n * s_n))
        * (k_n * k_n)));
}

/// Reorders the other product of scale components.
proof fn lemma_mono_b(s_d: int, s_n: int, k_n: int, k_d: int, c0: int)
    ensures
        (((s_d * k_d) * (s_n * k_n)) * (s_n * k_n)) * c0 == ((c0 * (s_n * s_n)) * (k_n * k_n))
            * (s_d * k_d),
{
    broadcast use vstd::arithmetic::mul::group_mul_properties;

    assert((((s_d * k_d) * (s_n * k_n)) * (s_n * k_n)) * c0 == ((c0 * (s_n * s_n)) * (k_n
        * k_n)) * (s_d * k_d));
}

/// The heart of the cancellation: the compensating term collapses the
/// drift, leaving `s_d * k_n` times the squared reading.
proof fn lemma_inner_sum(c0: int, s_n: int, s_d: int, k_n: int, k_d: int, e: int, r: int, v: int, h: int, w: int)
    requires
        e == c0 * (s_n * s_n),
        r == k_n * k_n,
        v == s_d * k_d,
        h == s_n * k_n,
        w == s_d * s_n,
    ensures
        ((w * r - v * h) * h) * c0 == (s_d * k_n) * (e * r) - (e * r) * v,
{
    lemma_dist_sub(w * r, v * h, h, c0);
    lemma_mono_a(s_d, s_n, k_n, c0);
    lemma_mono_b(s_d, s_n, k_n, k_d, c0);
}

/// The closing regrouping: both cross products of the fixed-point
/// equation reduce to one and the same monomial.
proof fn lemma_final_regroup(
    v: int,
    h: int,
    t: int,
    e: int,
    r: int,
    w: int,
    c0: int,
    z0: int,
    s_n: int,
    s_d: int,
    k_n: int,
)
    requires
        w == s_d * s_n,
        h == s_n * k_n,
        e == c0 * (s_n * s_n),
        z0 == s_d * k_n,
    ensures
        ((v * h) * ((t * e) * (z0 * (e * r)))) * e == ((((t * e) * e) * r) * (v * h)) * (e * z0),
        (w * t) * ((c0 * (h * h)) * ((e * (e * r)) * v)) == ((((t * e) * e) * r) * (v * h)) * ((w
            * c0) * h),
        e * z0 == (w * c0) * h,
{
    lemma_fr_a(v, h, t, e, r, z0);
    lemma_fr_b(w, t, c0, h, e, r, v);
    lemma_fr_c(c0, s_n, s_d, k_n);
}

/// Reassociates the left cross product.
proof fn lemma_fr_a(v: int, h: int, t: int, e: int, r: int, z0: int)
    ensures
        ((v * h) * ((t * e) * (z0 * (e * r)))) * e == ((((t * e) * e) * r) * (v * h)) * (e * z0),
{
    broadcast use vstd::arithmetic::mul::group_mul_properties;

    assert(((v * h) * ((t * e) * (z0 * (e * r)))) * e == ((((t * e) * e) * r) * (v * h)) * (e
        * z0));
}

/// Reassociates the right cross product.
proof fn lemma_fr_b(w: int, t: int, c0: int, h: int, e: int, r: int, v: int)
    ensures
        (w * t) * ((c0 * (h * h)) * ((e * (e * r)) * v)) == ((((t * e) * e) * r) * (v * h)) * ((w
            * c0) * h),
{
    broadcast use vstd::arithmetic::mul::group_mul_properties;

    assert((w * t) * ((c0 * (h * h)) * ((e * (e * r)) * v)) == ((((t * e) * e) * r) * (v * h))
        * ((w * c0) * h));
}

/// The two leftover factor groups agree.
proof fn lemma_fr_c(c0: int, s_n: int, s_d: int, k_n: int)
    ensures
        (c0 * (s_n * s_n)) * (s_d * k_n) == ((s_d * s_n) * c0) * (s_n * k_n),
{
    broadcast use vstd::arithmetic::mul::group_mul_properties;

    assert((c0 * (s_n * s_n)) * (s_d * k_n) == ((s_d * s_n) * c0) * (s_n * k_n));
}

/// One axis of an anchored zoom keeps its fixed point: reading the
/// world coordinate under the anchor after the zoom yields the same
/// rational value as before it.
pub proof fn lemma_zoom_axis_anchor_fixed(pos: Ratio, sc: Ratio, factor: Ratio, anchor: Ratio)
    requires
        pos.wf(),
        sc.wf(),
        sc.is_pos(),
        factor.wf(),
        factor.is_pos(),
        anchor.wf(),
    ensures
        ({
            let z = spec_zoom_axis(pos, sc, factor, anchor);
            rat_eq(
                rat_add(rat_div(anchor, z.1), rat_div(z.0, z.1)),
                rat_add(rat_div(anchor, sc), rat_div(pos, sc)),
            )
        }),
{
    let a_n: int = anchor.n;
    let a_d: int = anchor.d;
    let p_n: int = pos.n;
    let p_d: int = pos.d;
    let s_n: int = sc.n;
    let s_d: int = sc.d;
    let k_n: int = factor.n;
    let k_d: int = factor.d;

    let t: int = a_n * p_d + p_n * a_d;
    let c0: int = a_d * p_d;
    let w: int = s_d * s_n;
    let h: int = s_n * k_n;
    let v: int = s_d * k_d;
    let e: int = c0 * (s_n * s_n);
    let r: int = k_n * k_n;
    let z0: int = s_d * k_n;

    let s2 = rat_mul(sc, factor);
    lemma_pos_mul(s_n, k_n);
    assert(s2.n > 0);
    assert(s2.n == h);
    assert(s2.d == v);

    let pre = rat_add(rat_div(anchor, sc), rat_div(pos, sc));
    lemma_rev_form(a_n, a_d, p_n, p_d, s_n, s_d, t);
    assert(pre.n == w * t);
    assert(pre.d == e);

    let post = rat_add(rat_div(anchor, s2), rat_div(pos, s2));
    lemma_rev_form(a_n, a_d, p_n, p_d, h, v, t);
    lemma_hh_regroup(c0, s_n, k_n);
    assert(post.n == (v * h) * t);
    assert(post.d == e * r);

    let sb = rat_sub(pre, post);
    lemma_sb_form(w, t, e, r, v, h);
    let x0: int = (t * e) * (w * r - v * h);
    assert(sb.n == x0);
    assert(sb.d == e * (e * r));

    let delta = rat_mul(sb, s2);
    let dd: int = (e * (e * r)) * v;
    assert(delta.n == x0 * h);
    assert(delta.d == dd);

    let p2 = rat_add(pos, delta);
    assert(p2.n == p_n * dd + (x0 * h) * p_d);
    assert(p2.d == p_d * dd);

    let z = spec_zoom_axis(pos, sc, factor, anchor);
    assert(z.0 == p2 && z.1 == s2);

    let after = rat_add(rat_div(anchor, s2), rat_div(p2, s2));
    lemma_after_form(a_n, a_d, p_n, p_d, v, h, dd, x0, t, c0);
    assert(after.n == (v * h) * (dd * t + (x0 * h) * c0));
    assert(after.d == (c0 * (h * h)) * dd);

    lemma_q_gather(t, e, r, v, c0, h, w);
    assert(dd * t == (t * e) * ((e * r) * v));
    assert((x0 * h) * c0 == (t * e) * (((w * r - v * h) * h) * c0));
    lemma_inner_sum(c0, s_n, s_d, k_n, k_d, e, r, v, h, w);
    assert(((w * r - v * h) * h) * c0 == z0 * (e * r) - (e * r) * v);
    vstd::arithmetic::mul::lemma_mul_is_distributive_add(
        (t * e),
        (e * r) * v,
        z0 * (e * r) - (e * r) * v,
    );
    assert(dd * t + (x0 * h) * c0 == (t * e) * ((e * r) * v + (z0 * (e * r) - (e * r) * v)));
    assert(dd * t + (x0 * h) * c0 == (t * e) * (z0 * (e * r)));
    assert(after.n == (v * h) * ((t * e) * (z0 * (e * r))));

    lemma_final_regroup(v, h, t, e, r, w, c0, z0, s_n, s_d, k_n);
    assert(after.n * pre.d == pre.n * after.d);
}

/// The anchored zoom keeps its fixed point on both axes: the world
/// point shown at the anchor's screen position is the same rational
/// point before and after `scale(factor, Some(p))`, exactly.
pub proof fn lemma_anchored_zoom_fixed_point(c: CameraV, factor: Vec2V, p: Vec2V)
    requires
        c.wf(),
        factor.wf(),
        factor.x.is_pos(),
        factor.y.is_pos(),
        p.wf(),
    ensures
        ({
            let c2 = spec_scale(c, factor, Option::Some(p));
            &&& rat_eq(spec_reverse_transform(c2, p).x, spec_reverse_transform(c, p).x)
            &&& rat_eq(spec_reverse_transform(c2, p).y, spec_reverse_transform(c, p).y)
        }),
{
    lemma_zoom_axis_anchor_fixed(c.pos.x, c.scale.x, factor.x, p.x);
    lemma_zoom_axis_anchor_fixed(c.pos.y, c.scale.y, factor.y, p.y);
}

} // verus!
