use vstd::prelude::*;

verus! {

/// A point of the field, in micro-units.
#[derive(Clone, Copy, Debug, PartialEq, Eq, Structural)]
pub struct Position {
    pub x: i64,
    pub y: i64,
}

/// A velocity, in field units per second.
#[derive(Clone, Copy, Debug, PartialEq, Eq, Structural)]
pub struct Velocity {
    pub x: i64,
    pub y: i64,
}

/// Extents of an axis-aligned rectangle, in micro-units.
#[derive(Clone, Copy, Debug, PartialEq, Eq, Structural)]
pub struct Size {
    pub width: i64,
    pub height: i64,
}

pub open spec fn abs(v: int) -> int {
    if v < 0 {
        -v
    } else {
        v
    }
}

/// Two rectangles, given by center and size, overlap: on each axis the
/// distance between centers is below the sum of the half-extents. Both
/// sides are doubled so that odd sizes need no rounding.
pub open spec fn overlaps(a: Position, a_size: Size, b: Position, b_size: Size) -> bool {
    &&& 2 * abs(a.x - b.x) < a_size.width + b_size.width
    &&& 2 * abs(a.y - b.y) < a_size.height + b_size.height
}

/// Distance covered at velocity `v` (units per second) in `dt`
/// microseconds, in micro-units.
pub open spec fn displacement(v: i64, dt: u64) -> int {
    v * dt
}

/// Computes `v * dt` without overflow.
pub fn travel(v: i64, dt: u64) -> (r: i128)
    ensures
        r == displacement(v, dt),
        -0x8000_0000_0000_0000 * 0xffff_ffff_ffff_ffff <= r <= 0x7fff_ffff_ffff_ffff
            * 0xffff_ffff_ffff_ffff,
{
    proof {
        let vi = v as int;
        let di = dt as int;
        assert(-0x8000_0000_0000_0000 <= vi <= 0x7fff_ffff_ffff_ffff);
        assert(0 <= di <= 0xffff_ffff_ffff_ffff);
        assert(-0x8000_0000_0000_0000 * 0xffff_ffff_ffff_ffff <= vi * di
            <= 0x7fff_ffff_ffff_ffff * 0xffff_ffff_ffff_ffff) by (nonlinear_arith)
            requires
                -0x8000_0000_0000_0000 <= vi <= 0x7fff_ffff_ffff_ffff,
                0 <= di <= 0xffff_ffff_ffff_ffff,
        ;
    }
    (v as i128) * (dt as i128)
}

/// Axis-aligned bounding-box test between two rectangles given by center
/// and size; sizes are non-negative.
pub fn collide(a: Position, a_size: Size, b: Position, b_size: Size) -> (r: bool)
    requires
        a_size.width >= 0,
        a_size.height >= 0,
        b_size.width >= 0,
        b_size.height >= 0,
    ensures
        r == overlaps(a, a_size, b, b_size),
{
    let dx: i128 = (a.x as i128) - (b.x as i128);
    let dy: i128 = (a.y as i128) - (b.y as i128);
    let ax: i128 = if dx < 0 { -dx } else { dx };
    let ay: i128 = if dy < 0 { -dy } else { dy };
    2 * ax < (a_size.width as i128) + (b_size.width as i128)
        && 2 * ay < (a_size.height as i128) + (b_size.height as i128)
}

} // verus!
