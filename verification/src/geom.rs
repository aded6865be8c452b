//! Plane vectors, axis-aligned box overlap, and velocity reflection.

use vstd::prelude::*;

verus! {

/// An executable plane vector in fixed-point coordinates.
#[derive(Clone, Copy, PartialEq, Eq, Structural, Debug)]
pub struct Vec2 {
    pub x: i64,
    pub y: i64,
}

/// The mathematical model of a plane vector: unbounded integers.
pub struct V2 {
    pub x: int,
    pub y: int,
}

impl View for Vec2 {
    type V = V2;

    open spec fn view(&self) -> V2 {
        V2 { x: self.x as int, y: self.y as int }
    }
}

/// The dot product of two vectors.
pub open spec fn dot(a: V2, b: V2) -> int {
    a.x * b.x + a.y * b.y
}

/// Mirroring a vector about a surface normal: `v - 2 (v . n) n`.
pub open spec fn reflect(v: V2, n: V2) -> V2 {
    V2 { x: v.x - 2 * dot(v, n) * n.x, y: v.y - 2 * dot(v, n) * n.y }
}

/// The four axis-aligned unit vectors, the only surface normals the game has.
pub open spec fn is_axis_unit(n: V2) -> bool {
    ||| (n.x == 0 && (n.y == 1 || n.y == -1))
    ||| (n.y == 0 && (n.x == 1 || n.x == -1))
}

proof fn lemma_reflect_components(vx: int, vy: int, nx: int, ny: int) by (nonlinear_arith)
    requires
        nx * nx + ny * ny == 1,
    ensures
        ({
            let d = vx * nx + vy * ny;
            let rx = vx - 2 * d * nx;
            let ry = vy - 2 * d * ny;
            rx * rx + ry * ry == vx * vx + vy * vy && rx * nx + ry * ny == -d
        }),
{
}

/// Reflection about any unit normal preserves the squared speed and flips the
/// sign of the velocity's component along the normal.
pub proof fn lemma_reflection(v: V2, n: V2)
    requires
        dot(n, n) == 1,
    ensures
        dot(reflect(v, n), reflect(v, n)) == dot(v, v),
        dot(reflect(v, n), n) == -dot(v, n),
{
    lemma_reflect_components(v.x, v.y, n.x, n.y);
}

/// Reflects `v` about the axis-aligned unit normal `n`.
pub fn reflect_dir(v: Vec2, n: Vec2) -> (r: Vec2)
    requires
        is_axis_unit(n@),
        n@.x == 0 ==> v.y != i64::MIN,
        n@.y == 0 ==> v.x != i64::MIN,
    ensures
        r@ == reflect(v@, n@),
        n@.x == 0 ==> r.x == v.x && r.y == -v.y,
        n@.y == 0 ==> r.x == -v.x && r.y == v.y,
{
    if n.x == 0 {
        proof {
            assert(v@.x - 2 * dot(v@, n@) * n@.x == v@.x) by (nonlinear_arith)
                requires
                    n@.x == 0,
            ;
            assert(v@.y - 2 * dot(v@, n@) * n@.y == -v@.y) by (nonlinear_arith)
                requires
                    n@.x == 0 && (n@.y == 1 || n@.y == -1),
            ;
        }
        Vec2 { x: v.x, y: -v.y }
    } else {
        proof {
            assert(v@.x - 2 * dot(v@, n@) * n@.x == -v@.x) by (nonlinear_arith)
                requires
                    n@.y == 0 && (n@.x == 1 || n@.x == -1),
            ;
            assert(v@.y - 2 * dot(v@, n@) * n@.y == v@.y) by (nonlinear_arith)
                requires
                    n@.y == 0,
            ;
        }
        Vec2 { x: -v.x, y: v.y }
    }
}

/// Whether two axis-aligned boxes, each given by its center and half-extent,
/// strictly overlap. Boxes that merely touch along an edge do not collide.
pub open spec fn overlaps(ca: V2, ha: V2, cb: V2, hb: V2) -> bool {
    &&& abs_int(ca.x - cb.x) < ha.x + hb.x
    &&& abs_int(ca.y - cb.y) < ha.y + hb.y
}

/// The absolute value of a mathematical integer.
pub open spec fn abs_int(x: int) -> int {
    if x < 0 {
        -x
    } else {
        x
    }
}

/// The strict axis-aligned box overlap test, on centers and half-extents.
pub fn aabb_overlap(ca: Vec2, ha: Vec2, cb: Vec2, hb: Vec2) -> (r: bool)
    ensures
        r == overlaps(ca@, ha@, cb@, hb@),
{
    let dx: i128 = (ca.x as i128) - (cb.x as i128);
    let dy: i128 = (ca.y as i128) - (cb.y as i128);
    let adx: i128 = if dx < 0 { -dx } else { dx };
    let ady: i128 = if dy < 0 { -dy } else { dy };
    adx < (ha.x as i128) + (hb.x as i128) && ady < (ha.y as i128) + (hb.y as i128)
}

} // verus!
