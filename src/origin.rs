//! The origin correction: keeps a drawn image placed under its chosen origin
//! as the origin or the instance's transform changes.
use vstd::prelude::*;
use crate::geom::{
    div_toward_zero, fits_i64, fixed_mul, fixed_mul_fits, fixed_mul_spec, neg_sat, neg_sat_spec, Vec2, Vec3,
};

verus! {

/// The point of an image that its instance's position stands for.
#[derive(Clone, Copy, Debug, PartialEq, Eq, Structural)]
pub enum Origin {
    BottomLeft,
    BottomRight,
    Center,
    TopLeft,
    TopRight,
}

impl Default for Origin {
    /// The top left corner, the natural origin of a document.
    fn default() -> (r: Origin)
        ensures
            r == Origin::TopLeft,
    {
        Origin::TopLeft
    }
}

/// The offset that places an image of size `s` under origin `o`.
pub open spec fn translation_spec(o: Origin, s: Vec2) -> Vec3 {
    match o {
        Origin::BottomLeft => Vec3 { x: 0, y: s.y, z: 0 },
        Origin::BottomRight => Vec3 { x: neg_sat_spec(s.x), y: s.y, z: 0 },
        Origin::Center => Vec3 {
            x: (-div_toward_zero(s.x as int, 2)) as i64,
            y: div_toward_zero(s.y as int, 2) as i64,
            z: 0,
        },
        Origin::TopLeft => Vec3 { x: 0, y: 0, z: 0 },
        Origin::TopRight => Vec3 { x: neg_sat_spec(s.x), y: 0, z: 0 },
    }
}

fn half(v: i64) -> (r: i64)
    ensures
        r == div_toward_zero(v as int, 2),
{
    if v >= 0 {
        v / 2
    } else {
        let m: i128 = -(v as i128);
        (-(m / 2)) as i64
    }
}

impl Origin {
    /// The translation to add to an instance's position so that the image,
    /// drawn at `scaled_size`, sits with this origin at that position.
    pub fn compute_translation(&self, scaled_size: Vec2) -> (r: Vec3)
        ensures
            r == translation_spec(*self, scaled_size),
    {
        match self {
            Origin::BottomLeft => Vec3 { x: 0, y: scaled_size.y, z: 0 },
            Origin::BottomRight => Vec3 { x: neg_sat(scaled_size.x), y: scaled_size.y, z: 0 },
            Origin::Center => {
                let hx = half(scaled_size.x);
                let hy = half(scaled_size.y);
                Vec3 { x: -hx, y: hy, z: 0 }
            },
            Origin::TopLeft => Vec3 { x: 0, y: 0, z: 0 },
            Origin::TopRight => Vec3 { x: neg_sat(scaled_size.x), y: 0, z: 0 },
        }
    }
}

/// The origin that was last applied to an instance.
#[derive(Clone, Copy, Debug, PartialEq, Eq, Structural)]
pub struct OriginState {
    pub previous: Origin,
}

/// The size of an image drawn under the given scale factors.
pub open spec fn scaled_size_spec(size: Vec2, scale: Vec2) -> Vec2 {
    Vec2 {
        x: fixed_mul_spec(size.x as int, scale.x as int) as i64,
        y: fixed_mul_spec(size.y as int, scale.y as int) as i64,
    }
}

pub open spec fn scaled_size_fits(size: Vec2, scale: Vec2) -> bool {
    &&& fits_i64(fixed_mul_spec(size.x as int, scale.x as int))
    &&& fits_i64(fixed_mul_spec(size.y as int, scale.y as int))
}

/// Scales `size` component-wise by `scale`.
pub fn scaled_size(size: Vec2, scale: Vec2) -> (r: Vec2)
    requires
        scaled_size_fits(size, scale),
    ensures
        r == scaled_size_spec(size, scale),
{
    Vec2 { x: fixed_mul(size.x, scale.x), y: fixed_mul(size.y, scale.y) }
}

/// The translation that one tick adds, as exact integers: on a change of
/// origin, the new origin's offset minus the old one's; on a change of the
/// transform alone, the current origin's offset; otherwise nothing.
pub open spec fn correction_spec(previous: Origin, origin: Origin, transform_changed: bool, scaled: Vec2) -> (int, int, int) {
    let f = translation_spec(origin, scaled);
    let b = translation_spec(previous, scaled);
    if previous != origin {
        (f.x - b.x, f.y - b.y, f.z - b.z)
    } else if transform_changed {
        (f.x as int, f.y as int, f.z as int)
    } else {
        (0, 0, 0)
    }
}

/// `t` moved by `d`.
pub open spec fn moved(t: Vec3, d: (int, int, int)) -> Vec3 {
    Vec3 { x: (t.x + d.0) as i64, y: (t.y + d.1) as i64, z: (t.z + d.2) as i64 }
}

pub open spec fn moved_fits(t: Vec3, d: (int, int, int)) -> bool {
    fits_i64(t.x + d.0) && fits_i64(t.y + d.1) && fits_i64(t.z + d.2)
}

/// One tick brings no overflow: the scaled size and the moved translation fit.
pub open spec fn tick_fits(
    state: OriginState,
    origin: Origin,
    transform_changed: bool,
    size: Vec2,
    scale: Vec2,
    translation: Vec3,
) -> bool {
    &&& scaled_size_fits(size, scale)
    &&& moved_fits(
        translation,
        correction_spec(state.previous, origin, transform_changed, scaled_size_spec(size, scale)),
    )
}

fn add_delta(t: i64, forward: i64, reverse: i64) -> (r: i64)
    requires
        fits_i64(t + forward - reverse),
    ensures
        r == t + forward - reverse,
{
    (t as i128 + forward as i128 - reverse as i128) as i64
}

fn sum_fits(t: i64, forward: i64, reverse: i64) -> (r: bool)
    ensures
        r == fits_i64(t + forward - reverse),
{
    let v: i128 = t as i128 + forward as i128 - reverse as i128;
    i64::MIN as i128 <= v && v <= i64::MAX as i128
}

/// Whether `apply_origin` can take these values: nothing it computes overflows.
pub fn origin_tick_fits(
    state: &OriginState,
    origin: Origin,
    transform_changed: bool,
    size: Vec2,
    scale: Vec2,
    translation: &Vec3,
) -> (r: bool)
    ensures
        r == tick_fits(*state, origin, transform_changed, size, scale, *translation),
{
    if !(fixed_mul_fits(size.x, scale.x) && fixed_mul_fits(size.y, scale.y)) {
        return false;
    }
    let scaled = scaled_size(size, scale);
    let forward = origin.compute_translation(scaled);
    if state.previous != origin {
        let reverse = state.previous.compute_translation(scaled);
        sum_fits(translation.x, forward.x, reverse.x) && sum_fits(translation.y, forward.y, reverse.y)
            && sum_fits(translation.z, forward.z, reverse.z)
    } else if transform_changed {
        sum_fits(translation.x, forward.x, 0) && sum_fits(translation.y, forward.y, 0) && sum_fits(
            translation.z,
            forward.z,
            0,
        )
    } else {
        true
    }
}

impl OriginState {
    /// The state of an instance that was just found: the default origin applied.
    pub fn new() -> (r: OriginState)
        ensures
            r.previous == Origin::TopLeft,
    {
        OriginState { previous: Origin::TopLeft }
    }
}

/// Gives an instance its origin state the first time it has both its image
/// component and its mesh, and leaves every other instance as it is.
pub fn add_origin_state(state: &mut Option<OriginState>, has_image: bool, has_mesh: bool)
    ensures
        *final(state) == if old(state).is_none() && has_image && has_mesh {
            Some(OriginState { previous: Origin::TopLeft })
        } else {
            *old(state)
        },
{
    if state.is_none() && has_image && has_mesh {
        *state = Some(OriginState::new());
    }
}

/// One tick of the origin correction for one instance whose origin, transform
/// or mesh changed. `size` is the image's size, or `None` while the image is
/// not loaded: then nothing happens. Otherwise the correction is added to
/// `translation` and the state records `origin` as applied.
pub fn apply_origin(
    state: &mut OriginState,
    origin: Origin,
    transform_changed: bool,
    size: Option<Vec2>,
    scale: Vec2,
    translation: &mut Vec3,
)
    requires
        size matches Some(s) ==> tick_fits(*old(state), origin, transform_changed, s, scale, *old(translation)),
    ensures
        size is None ==> *final(state) == *old(state) && *final(translation) == *old(translation),
        size matches Some(s) ==> final(state).previous == origin && *final(translation) == moved(
            *old(translation),
            correction_spec(old(state).previous, origin, transform_changed, scaled_size_spec(s, scale)),
        ),
{
    if let Some(s) = size {
        let scaled = scaled_size(s, scale);
        if state.previous != origin {
            let reverse = state.previous.compute_translation(scaled);
            let forward = origin.compute_translation(scaled);
            translation.x = add_delta(translation.x, forward.x, reverse.x);
            translation.y = add_delta(translation.y, forward.y, reverse.y);
            translation.z = add_delta(translation.z, forward.z, reverse.z);
            state.previous = origin;
        } else if transform_changed {
            let forward = origin.compute_translation(scaled);
            translation.x = add_delta(translation.x, forward.x, 0);
            translation.y = add_delta(translation.y, forward.y, 0);
            translation.z = add_delta(translation.z, forward.z, 0);
        }
    }
}

/// Applying the same origin on a second tick, with the transform unchanged,
/// leaves the translation and the state as the first tick left them.
pub proof fn lemma_origin_idempotent(
    state: OriginState,
    origin: Origin,
    transform_changed: bool,
    size: Vec2,
    scale: Vec2,
    translation: Vec3,
)
    ensures
        ({
            let scaled = scaled_size_spec(size, scale);
            let t1 = moved(translation, correction_spec(state.previous, origin, transform_changed, scaled));
            let s1 = OriginState { previous: origin };
            correction_spec(s1.previous, origin, false, scaled) == (0int, 0int, 0int)
                && moved(t1, correction_spec(s1.previous, origin, false, scaled)) == t1
        }),
{
}

} // verus!
