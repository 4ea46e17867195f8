use vstd::prelude::*;

verus! {

/// Micro-units in one world unit; also the scale factor that stands for 1.0.
pub const UNIT: i64 = 1_000_000;

/// A 2D quantity in micro-units (a position, an offset or a half-extent).
#[derive(Debug, Clone, Copy, PartialEq, Eq, Structural)]
pub struct Vec2i {
    pub x: i64,
    pub y: i64,
}

/// A position in micro-units, with `z` ordering what is drawn on top.
#[derive(Debug, Clone, Copy, PartialEq, Eq, Structural)]
pub struct Vec3i {
    pub x: i64,
    pub y: i64,
    pub z: i64,
}

/// A per-axis scale in millionths (`UNIT` is 1.0).
#[derive(Debug, Clone, Copy, PartialEq, Eq, Structural)]
pub struct Scale2 {
    pub x: i32,
    pub y: i32,
}

/// Where an entity stands and how large it is drawn.
#[derive(Debug, Clone, Copy, PartialEq, Eq, Structural)]
pub struct Transform {
    pub translation: Vec3i,
    pub scale: Scale2,
}

/// An axis-aligned box in the entity's local space: its centre's offset and
/// its half-extents, both scaled by the entity's transform when tested.
#[derive(Debug, Clone, Copy, PartialEq, Eq, Structural)]
pub struct Collider {
    pub offset: Vec2i,
    pub scale: Vec2i,
}

/// How a collider's half-extents follow the size of the displayed image:
/// half the size times `multiplier` (in millionths), plus `padding`.
#[derive(Debug, Clone, Copy, PartialEq, Eq, Structural)]
pub struct AutoSizeCollider {
    pub padding: Vec2i,
    pub multiplier: Scale2,
}

/// A transform together with its collider.
#[derive(Debug, Clone, Copy, PartialEq, Eq, Structural)]
pub struct Body {
    pub transform: Transform,
    pub collider: Collider,
}

pub open spec fn abs(v: int) -> int {
    if v < 0 {
        -v
    } else {
        v
    }
}

/// A transform at `translation` with scale 1.0 on both axes.
pub open spec fn transform_at(translation: Vec3i) -> Transform {
    Transform { translation, scale: Scale2 { x: UNIT as i32, y: UNIT as i32 } }
}

/// No offset and half-extents of one unit.
pub open spec fn unit_collider() -> Collider {
    Collider { offset: Vec2i { x: 0, y: 0 }, scale: Vec2i { x: UNIT, y: UNIT } }
}

impl Transform {
    /// The position on the plane, without the draw order.
    pub fn translation_xy(&self) -> (r: Vec2i)
        ensures
            r == (Vec2i { x: self.translation.x, y: self.translation.y }),
    {
        Vec2i { x: self.translation.x, y: self.translation.y }
    }

    /// See `transform_at`.
    pub fn at(translation: Vec3i) -> (r: Transform)
        ensures
            r == transform_at(translation),
    {
        Transform { translation, scale: Scale2 { x: 1_000_000, y: 1_000_000 } }
    }
}

impl Collider {
    /// The collider that entities start with: no offset, half-extents of one
    /// unit.
    pub fn unit() -> (r: Collider)
        ensures
            r == unit_collider(),
    {
        Collider { offset: Vec2i { x: 0, y: 0 }, scale: Vec2i { x: UNIT, y: UNIT } }
    }
}

impl Default for AutoSizeCollider {
    fn default() -> (r: AutoSizeCollider)
        ensures
            r == (AutoSizeCollider {
                padding: Vec2i { x: 0, y: 0 },
                multiplier: Scale2 { x: UNIT as i32, y: UNIT as i32 },
            }),
    {
        AutoSizeCollider {
            padding: Vec2i { x: 0, y: 0 },
            multiplier: Scale2 { x: 1_000_000, y: 1_000_000 },
        }
    }
}

/// The centre of a body's box on one axis, times `UNIT`.
pub open spec fn box_center(translation: i64, offset: i64, scale: i32) -> int {
    translation * UNIT + offset * abs(scale as int)
}

/// The half-extent of a body's box on one axis, times `UNIT`.
pub open spec fn box_half(half: i64, scale: i32) -> int {
    abs(half as int) * abs(scale as int)
}

/// Two closed intervals, given by centre and half-extent, share a point.
pub open spec fn intervals_meet(ca: int, ha: int, cb: int, hb: int) -> bool {
    ca - ha <= cb + hb && ca + ha >= cb - hb
}

/// Box policy: the scaled boxes of two bodies intersect on both axes.
pub open spec fn boxes_overlap(a: Body, b: Body) -> bool {
    &&& intervals_meet(
        box_center(a.transform.translation.x, a.collider.offset.x, a.transform.scale.x),
        box_half(a.collider.scale.x, a.transform.scale.x),
        box_center(b.transform.translation.x, b.collider.offset.x, b.transform.scale.x),
        box_half(b.collider.scale.x, b.transform.scale.x),
    )
    &&& intervals_meet(
        box_center(a.transform.translation.y, a.collider.offset.y, a.transform.scale.y),
        box_half(a.collider.scale.y, a.transform.scale.y),
        box_center(b.transform.translation.y, b.collider.offset.y, b.transform.scale.y),
        box_half(b.collider.scale.y, b.transform.scale.y),
    )
}

/// Circle policy: two circles touch or overlap.
pub open spec fn circles_overlap(a: Vec2i, ra: u32, b: Vec2i, rb: u32) -> bool {
    (a.x - b.x) * (a.x - b.x) + (a.y - b.y) * (a.y - b.y) <= (ra + rb) * (ra + rb)
}

fn abs_i128(v: i128) -> (r: i128)
    requires
        v > i128::MIN,
    ensures
        r == abs(v as int),
{
    if v < 0 {
        -v
    } else {
        v
    }
}

fn center_on_axis(translation: i64, offset: i64, scale: i32) -> (r: i128)
    ensures
        r == box_center(translation, offset, scale),
        -0x1_0000_0000_0000_0000_0000_0000 <= r <= 0x1_0000_0000_0000_0000_0000_0000,
{
    let s = abs_i128(scale as i128);
    assert(-0x8000_0000_0000_0000_0000_0000 <= offset * s <= 0x8000_0000_0000_0000_0000_0000)
        by (nonlinear_arith)
        requires
            -0x8000_0000_0000_0000 <= offset <= 0x8000_0000_0000_0000,
            0 <= s <= 0x8000_0000,
    ;
    (translation as i128) * 1_000_000 + (offset as i128) * s
}

fn half_on_axis(half: i64, scale: i32) -> (r: i128)
    ensures
        r == box_half(half, scale),
        0 <= r <= 0x1_0000_0000_0000_0000_0000_0000,
{
    let h = abs_i128(half as i128);
    let s = abs_i128(scale as i128);
    proof {
        vstd::arithmetic::mul::lemma_mul_inequality(h as int, 0x8000_0000_0000_0000, s as int);
        vstd::arithmetic::mul::lemma_mul_inequality(s as int, 0x8000_0000, 0x8000_0000_0000_0000);
        vstd::arithmetic::mul::lemma_mul_is_commutative(h as int, s as int);
        vstd::arithmetic::mul::lemma_mul_nonnegative(h as int, s as int);
    }
    h * s
}

/// Whether the boxes of two bodies overlap (box policy).
pub fn check_box_collision(a: &Body, b: &Body) -> (r: bool)
    ensures
        r == boxes_overlap(*a, *b),
{
    let cax = center_on_axis(a.transform.translation.x, a.collider.offset.x, a.transform.scale.x);
    let hax = half_on_axis(a.collider.scale.x, a.transform.scale.x);
    let cbx = center_on_axis(b.transform.translation.x, b.collider.offset.x, b.transform.scale.x);
    let hbx = half_on_axis(b.collider.scale.x, b.transform.scale.x);
    let cay = center_on_axis(a.transform.translation.y, a.collider.offset.y, a.transform.scale.y);
    let hay = half_on_axis(a.collider.scale.y, a.transform.scale.y);
    let cby = center_on_axis(b.transform.translation.y, b.collider.offset.y, b.transform.scale.y);
    let hby = half_on_axis(b.collider.scale.y, b.transform.scale.y);
    let x_overlaps = cax - hax <= cbx + hbx && cax + hax >= cbx - hbx;
    let y_overlaps = cay - hay <= cby + hby && cay + hay >= cby - hby;
    x_overlaps && y_overlaps
}

/// Whether two circles at `a` and `b` with radii `ra` and `rb` touch or
/// overlap (circle policy).
pub fn check_circle_collision(a: Vec2i, ra: u32, b: Vec2i, rb: u32) -> (r: bool)
    ensures
        r == circles_overlap(a, ra, b, rb),
{
    let dx = abs_i128(a.x as i128 - b.x as i128);
    let dy = abs_i128(a.y as i128 - b.y as i128);
    let reach = ra as i128 + rb as i128;
    if dx > reach || dy > reach {
        proof {
            let d = if dx > reach {
                dx as int
            } else {
                dy as int
            };
            assert(d * d > reach * reach) by (nonlinear_arith)
                requires
                    d > reach >= 0,
            ;
            vstd::arithmetic::mul::lemma_mul_nonnegative(dx as int, dx as int);
            vstd::arithmetic::mul::lemma_mul_nonnegative(dy as int, dy as int);
            assert((a.x - b.x) * (a.x - b.x) == dx * dx) by (nonlinear_arith)
                requires
                    dx == abs(a.x - b.x),
            ;
            assert((a.y - b.y) * (a.y - b.y) == dy * dy) by (nonlinear_arith)
                requires
                    dy == abs(a.y - b.y),
            ;
        }
        false
    } else {
        proof {
            vstd::arithmetic::mul::lemma_mul_inequality(dx as int, reach as int, dx as int);
            vstd::arithmetic::mul::lemma_mul_inequality(dx as int, reach as int, reach as int);
            vstd::arithmetic::mul::lemma_mul_inequality(dy as int, reach as int, dy as int);
            vstd::arithmetic::mul::lemma_mul_inequality(dy as int, reach as int, reach as int);
            vstd::arithmetic::mul::lemma_mul_inequality(reach as int, 0x2_0000_0000, reach as int);
            vstd::arithmetic::mul::lemma_mul_inequality(reach as int, 0x2_0000_0000, 0x2_0000_0000);
            vstd::arithmetic::mul::lemma_mul_nonnegative(dx as int, dx as int);
            vstd::arithmetic::mul::lemma_mul_nonnegative(dy as int, dy as int);
            assert((a.x - b.x) * (a.x - b.x) == dx * dx) by (nonlinear_arith)
                requires
                    dx == abs(a.x - b.x),
            ;
            assert((a.y - b.y) * (a.y - b.y) == dy * dy) by (nonlinear_arith)
                requires
                    dy == abs(a.y - b.y),
            ;
        }
        dx * dx + dy * dy <= reach * reach
    }
}

/// Tests two values of one kind for overlap.
pub trait CollisionCheck {
    fn check_collision(&self, other: &Self) -> bool;
}

impl CollisionCheck for Body {
    /// Box policy, see `check_box_collision`.
    fn check_collision(&self, other: &Self) -> (r: bool)
        ensures
            r == boxes_overlap(*self, *other),
    {
        check_box_collision(self, other)
    }
}

/// `x / d` rounded toward zero.
pub open spec fn div_toward_zero(x: int, d: int) -> int {
    if x >= 0 {
        x / d
    } else {
        -((-x) / d)
    }
}

/// The collider half-extent on one axis for a displayed size of `size`
/// pixels (one world unit each): half the size times `multiplier`
/// millionths, plus `padding`, as a magnitude, capped at `i64::MAX`.
pub open spec fn sized_half(size: u32, multiplier: i32, padding: i64) -> i64 {
    let h = abs(div_toward_zero(size * UNIT / 2 * multiplier, UNIT as int) + padding);
    if h > i64::MAX {
        i64::MAX
    } else {
        h as i64
    }
}

/// The half-extents that a displayed image of `width` by `height` pixels
/// asks for; nothing for a zero-sized image.
pub open spec fn half_extents_for(width: u32, height: u32, cfg: Option<AutoSizeCollider>) -> Option<
    Vec2i,
> {
    if width == 0 || height == 0 {
        None
    } else {
        let c = match cfg {
            Some(c) => c,
            None => AutoSizeCollider {
                padding: Vec2i { x: 0, y: 0 },
                multiplier: Scale2 { x: UNIT as i32, y: UNIT as i32 },
            },
        };
        Some(
            Vec2i {
                x: sized_half(width, c.multiplier.x, c.padding.x),
                y: sized_half(height, c.multiplier.y, c.padding.y),
            },
        )
    }
}

/// See `half_extents_for`.
pub fn auto_collider_half_extents(width: u32, height: u32, cfg: Option<AutoSizeCollider>) -> (r:
    Option<Vec2i>)
    ensures
        r == half_extents_for(width, height, cfg),
{
    if width == 0 || height == 0 {
        return None;
    }
    let c = match cfg {
        Some(c) => c,
        None => AutoSizeCollider {
            padding: Vec2i { x: 0, y: 0 },
            multiplier: Scale2 { x: 1_000_000, y: 1_000_000 },
        },
    };
    let hx = sized_axis(width, c.multiplier.x, c.padding.x);
    let hy = sized_axis(height, c.multiplier.y, c.padding.y);
    Some(Vec2i { x: hx, y: hy })
}

fn sized_axis(size: u32, multiplier: i32, padding: i64) -> (r: i64)
    ensures
        r == sized_half(size, multiplier, padding),
{
    let half: u128 = (size as u128) * 1_000_000 / 2;
    let m: u128 = if multiplier < 0 {
        (-(multiplier as i64)) as u128
    } else {
        multiplier as u128
    };
    proof {
        vstd::arithmetic::mul::lemma_mul_inequality(half as int, 0x10_0000_0000_0000, m as int);
        vstd::arithmetic::mul::lemma_mul_inequality(m as int, 0x8000_0000, 0x10_0000_0000_0000);
        vstd::arithmetic::mul::lemma_mul_is_commutative(half as int, m as int);
        vstd::arithmetic::div_mod::lemma_div_is_ordered(
            (half * m) as int,
            (0x8000_0000 * 0x10_0000_0000_0000) as int,
            1_000_000,
        );
        if multiplier < 0 {
            vstd::arithmetic::mul::lemma_mul_unary_negation(half as int, m as int);
            assert(half * multiplier == -(half * m)) by (nonlinear_arith)
                requires
                    m == -multiplier,
            ;
        }
    }
    let q = (half * m / 1_000_000) as i128;
    let scaled: i128 = if multiplier < 0 {
        -q
    } else {
        q
    };
    let v = abs_i128(scaled + padding as i128);
    if v > i64::MAX as i128 {
        i64::MAX
    } else {
        v as i64
    }
}

/// Refreshes a collider from the displayed image size. Nothing changes for
/// a zero-sized image or when the half-extents are already the ones asked
/// for; the result says whether the collider was written.
pub fn auto_size_collider(
    collider: &mut Collider,
    width: u32,
    height: u32,
    cfg: Option<AutoSizeCollider>,
) -> (changed: bool)
    ensures
        final(collider).offset == old(collider).offset,
        match half_extents_for(width, height, cfg) {
            Some(h) => {
                &&& final(collider).scale == h
                &&& changed == (h != old(collider).scale)
            },
            None => *final(collider) == *old(collider) && !changed,
        },
{
    match auto_collider_half_extents(width, height, cfg) {
        Some(h) => {
            if h.x != collider.scale.x || h.y != collider.scale.y {
                collider.scale = h;
                true
            } else {
                false
            }
        },
        None => false,
    }
}

} // verus!
