//! Fixed-point plane geometry shared by the following-distance check, the
//! admission gate and the path follower.

use vstd::prelude::*;

verus! {

/// Sub-units per unit of the road plan.
pub const SCALE: i32 = 1000;

/// Squared Euclidean distance between two points.
pub open spec fn dist_sq(a: (int, int), b: (int, int)) -> int {
    (b.0 - a.0) * (b.0 - a.0) + (b.1 - a.1) * (b.1 - a.1)
}

/// `r` is the integer square root of `n`, rounded down.
pub open spec fn is_floor_sqrt(n: int, r: int) -> bool {
    0 <= r && r * r <= n < (r + 1) * (r + 1)
}

/// The integer square root of `n`, rounded down (for `n >= 0`).
pub open spec fn floor_sqrt(n: int) -> int {
    choose|r: int| is_floor_sqrt(n, r)
}

/// Squaring keeps the order of non-negative integers.
pub proof fn lemma_square_monotonic(a: int, b: int)
    requires
        0 <= a <= b,
    ensures
        a * a <= b * b,
{
    assert(a * a <= b * b) by (nonlinear_arith)
        requires
            0 <= a <= b,
    ;
}

/// A number has at most one rounded-down square root.
pub proof fn lemma_floor_sqrt_unique(n: int, a: int, b: int)
    requires
        is_floor_sqrt(n, a),
        is_floor_sqrt(n, b),
    ensures
        a == b,
{
    if a < b {
        lemma_square_monotonic(a + 1, b);
    } else if b < a {
        lemma_square_monotonic(b + 1, a);
    }
}

/// Any witness of the rounded-down square root is the root itself.
pub proof fn lemma_floor_sqrt_is(n: int, r: int)
    requires
        is_floor_sqrt(n, r),
    ensures
        floor_sqrt(n) == r,
{
    lemma_floor_sqrt_unique(n, floor_sqrt(n), r);
}

/// Integer square root, rounded down, by bisection.
pub fn isqrt(n: u128) -> (r: u64)
    ensures
        is_floor_sqrt(n as int, r as int),
        r as int == floor_sqrt(n as int),
{
    let mut lo: u128 = 0;
    let mut hi: u128 = 0x1_0000_0000_0000_0000;
    assert(n < hi * hi) by (nonlinear_arith)
        requires
            hi == 0x1_0000_0000_0000_0000u128,
            n <= u128::MAX,
    ;
    while hi - lo > 1
        invariant
            lo < hi <= 0x1_0000_0000_0000_0000,
            lo * lo <= n < hi * hi,
        decreases hi - lo,
    {
        let mid: u128 = lo + (hi - lo) / 2;
        assert(mid * mid <= u128::MAX) by (nonlinear_arith)
            requires
                0 <= mid < 0x1_0000_0000_0000_0000,
        ;
        if mid * mid <= n {
            lo = mid;
        } else {
            hi = mid;
        }
    }
    proof {
        lemma_floor_sqrt_is(n as int, lo as int);
    }
    lo as u64
}

/// An axis-aligned rectangle, borders included.
#[derive(Debug, Clone, Copy, PartialEq, Eq)]
pub struct Rect {
    pub x_min: i32,
    pub x_max: i32,
    pub y_min: i32,
    pub y_max: i32,
}

impl Rect {
    /// The point `p` lies inside the rectangle or on its border.
    pub open spec fn holds(self, p: (int, int)) -> bool {
        self.x_min <= p.0 <= self.x_max && self.y_min <= p.1 <= self.y_max
    }

    /// Containment test, borders included.
    pub fn contains(&self, p: (i32, i32)) -> (r: bool)
        ensures
            r == self.holds((p.0 as int, p.1 as int)),
    {
        self.x_min <= p.0 && p.0 <= self.x_max && self.y_min <= p.1 && p.1 <= self.y_max
    }
}

/// The view of a point: its coordinates as mathematical integers.
pub open spec fn point(p: (i32, i32)) -> (int, int) {
    (p.0 as int, p.1 as int)
}

/// Absolute difference of two coordinates.
pub open spec fn gap(a: int, b: int) -> int {
    if a <= b {
        b - a
    } else {
        a - b
    }
}

/// Absolute difference of two coordinates.
pub fn span(a: i32, b: i32) -> (d: u64)
    ensures
        d as int == gap(a as int, b as int),
        d <= 0xffff_ffff,
{
    if a <= b {
        (b as i64 - a as i64) as u64
    } else {
        (a as i64 - b as i64) as u64
    }
}

/// Squared Euclidean distance between two points.
pub fn distance_squared(a: (i32, i32), b: (i32, i32)) -> (d: u128)
    ensures
        d as int == dist_sq(point(a), point(b)),
        d <= 2 * 0xffff_ffff * 0xffff_ffff,
{
    let dx: u128 = span(a.0, b.0) as u128;
    let dy: u128 = span(a.1, b.1) as u128;
    assert(dx * dx <= 0xffff_ffff * 0xffff_ffff && dy * dy <= 0xffff_ffff * 0xffff_ffff)
        by (nonlinear_arith)
        requires
            0 <= dx <= 0xffff_ffff,
            0 <= dy <= 0xffff_ffff,
    ;
    assert(dx * dx == (b.0 - a.0) * (b.0 - a.0)) by (nonlinear_arith)
        requires
            dx == b.0 - a.0 || dx == a.0 - b.0,
    ;
    assert(dy * dy == (b.1 - a.1) * (b.1 - a.1)) by (nonlinear_arith)
        requires
            dy == b.1 - a.1 || dy == a.1 - b.1,
    ;
    dx * dx + dy * dy
}

/// Whether two points are strictly closer than `radius` (Euclidean).
pub open spec fn nearer_than(a: (int, int), b: (int, int), radius: int) -> bool {
    dist_sq(a, b) < radius * radius
}

/// Whether two points are strictly closer than `radius` (Euclidean).
pub fn within(a: (i32, i32), b: (i32, i32), radius: u32) -> (r: bool)
    ensures
        r == nearer_than(point(a), point(b), radius as int),
{
    let radius: u128 = radius as u128;
    assert(radius * radius <= 0xffff_ffff * 0xffff_ffff) by (nonlinear_arith)
        requires
            0 <= radius <= 0xffff_ffff,
    ;
    distance_squared(a, b) < radius * radius
}

/// One coordinate after a step of length `speed` along a displacement of
/// length `dist`: it moves toward `to` by `|to - from| * speed / dist`,
/// rounded down, and stays where it is when `dist` is zero.
pub open spec fn toward(from: int, to: int, speed: int, dist: int) -> int {
    if dist <= 0 {
        from
    } else if from <= to {
        from + ((to - from) * speed) / dist
    } else {
        from - ((from - to) * speed) / dist
    }
}

/// The point reached from `from` by moving `speed` along the unit
/// displacement vector toward `to`.
pub open spec fn stepped(from: (int, int), to: (int, int), speed: int) -> (int, int) {
    let dist = floor_sqrt(dist_sq(from, to));
    (toward(from.0, to.0, speed, dist), toward(from.1, to.1, speed, dist))
}

/// `c` lies between `a` and `b`, ends included, whichever of them is greater.
pub open spec fn between(a: int, c: int, b: int) -> bool {
    (a <= c <= b) || (b <= c <= a)
}

/// A step that is no longer than the displacement never passes the target.
pub proof fn lemma_toward_between(from: int, to: int, speed: int, dist: int)
    requires
        0 <= speed <= dist,
    ensures
        between(from, toward(from, to, speed, dist), to),
{
    if dist > 0 {
        let gap = if from <= to { to - from } else { from - to };
        assert(0 <= gap * speed <= gap * dist) by (nonlinear_arith)
            requires
                0 <= gap,
                0 <= speed <= dist,
        ;
        vstd::arithmetic::div_mod::lemma_div_is_ordered(gap * speed, gap * dist, dist);
        vstd::arithmetic::div_mod::lemma_div_is_ordered(0, gap * speed, dist);
        vstd::arithmetic::div_mod::lemma_div_by_multiple(gap, dist);
    }
}

/// Where the distance is at least `speed`, so is its rounded-down root.
pub proof fn lemma_floor_sqrt_at_least(n: int, speed: int)
    requires
        0 <= speed,
        speed * speed <= n,
    ensures
        speed <= floor_sqrt(n),
        is_floor_sqrt(n, floor_sqrt(n)),
{
    lemma_floor_sqrt_exists(n);
    let r = floor_sqrt(n);
    if r < speed {
        lemma_square_monotonic(r + 1, speed);
    }
}

/// Every non-negative integer has a rounded-down square root.
pub proof fn lemma_floor_sqrt_exists(n: int)
    requires
        0 <= n,
    ensures
        is_floor_sqrt(n, floor_sqrt(n)),
    decreases n,
{
    if n == 0 {
        assert(is_floor_sqrt(0, 0));
    } else {
        lemma_floor_sqrt_exists(n - 1);
        let r = floor_sqrt(n - 1);
        if n < (r + 1) * (r + 1) {
            assert(is_floor_sqrt(n, r));
        } else {
            assert((r + 2) * (r + 2) > (r + 1) * (r + 1)) by (nonlinear_arith)
                requires
                    0 <= r,
            ;
            assert(is_floor_sqrt(n, r + 1));
        }
    }
}

/// What a step does to one coordinate, where the displacement is at least
/// as long as the step and as this coordinate's share of it: the gap to the
/// target shrinks by `gap * speed / dist`, which is no more than the gap and no
/// more than the speed.
pub proof fn lemma_toward_gap(from: int, to: int, speed: int, dist: int)
    requires
        0 <= speed <= dist,
        0 < dist,
        gap(from, to) <= dist,
    ensures
        0 <= (gap(from, to) * speed) / dist <= gap(from, to),
        (gap(from, to) * speed) / dist <= speed,
        gap(toward(from, to, speed, dist), to) == gap(from, to) - (gap(from, to) * speed) / dist,
        gap(from, toward(from, to, speed, dist)) == (gap(from, to) * speed) / dist,
{
    let g = gap(from, to);
    assert(0 <= g * speed <= g * dist && g * speed <= dist * speed) by (nonlinear_arith)
        requires
            0 <= g <= dist,
            0 <= speed <= dist,
    ;
    vstd::arithmetic::div_mod::lemma_div_is_ordered(g * speed, g * dist, dist);
    vstd::arithmetic::div_mod::lemma_div_is_ordered(g * speed, dist * speed, dist);
    vstd::arithmetic::div_mod::lemma_div_is_ordered(0, g * speed, dist);
    vstd::arithmetic::div_mod::lemma_div_by_multiple(g, dist);
    vstd::arithmetic::div_mod::lemma_div_by_multiple(speed, dist);
    assert(dist * speed == speed * dist) by (nonlinear_arith);
}

/// The square of the gap between two coordinates is the square of their
/// difference.
pub proof fn lemma_gap_squared(a: int, b: int)
    ensures
        gap(a, b) * gap(a, b) == (b - a) * (b - a),
        0 <= gap(a, b),
{
    assert(gap(a, b) * gap(a, b) == (b - a) * (b - a)) by (nonlinear_arith)
        requires
            gap(a, b) == b - a || gap(a, b) == a - b,
    ;
}

/// A step is no longer than the speed along either axis, and passes the
/// target along neither.
pub proof fn lemma_step_bounded(from: (int, int), to: (int, int), speed: int)
    requires
        0 <= speed,
        !nearer_than(from, to, speed),
    ensures
        gap(from.0, stepped(from, to, speed).0) <= speed,
        gap(from.1, stepped(from, to, speed).1) <= speed,
        between(from.0, stepped(from, to, speed).0, to.0),
        between(from.1, stepped(from, to, speed).1, to.1),
{
    let d2 = dist_sq(from, to);
    let dist = floor_sqrt(d2);
    lemma_floor_sqrt_at_least(d2, speed);
    lemma_toward_between(from.0, to.0, speed, dist);
    lemma_toward_between(from.1, to.1, speed, dist);
    if dist > 0 {
        lemma_gaps_within(from, to);
        lemma_toward_gap(from.0, to.0, speed, dist);
        lemma_toward_gap(from.1, to.1, speed, dist);
    }
}

/// Neither coordinate is farther from the target than the rounded-down
/// distance.
pub proof fn lemma_gaps_within(from: (int, int), to: (int, int))
    ensures
        gap(from.0, to.0) <= floor_sqrt(dist_sq(from, to)),
        gap(from.1, to.1) <= floor_sqrt(dist_sq(from, to)),
{
    let d2 = dist_sq(from, to);
    let gx = gap(from.0, to.0);
    let gy = gap(from.1, to.1);
    lemma_gap_squared(from.0, to.0);
    lemma_gap_squared(from.1, to.1);
    assert(gx * gx >= 0 && gy * gy >= 0) by (nonlinear_arith);
    lemma_floor_sqrt_exists(d2);
    let dist = floor_sqrt(d2);
    if gx > dist {
        lemma_square_monotonic(dist + 1, gx);
    }
    if gy > dist {
        lemma_square_monotonic(dist + 1, gy);
    }
}

/// A step at a speed of two sub-units or more brings the point strictly
/// nearer to its target: rounding never stalls a vehicle.
pub proof fn lemma_step_makes_progress(from: (int, int), to: (int, int), speed: int)
    requires
        2 <= speed,
        !nearer_than(from, to, speed),
    ensures
        dist_sq(stepped(from, to, speed), to) < dist_sq(from, to),
{
    let d2 = dist_sq(from, to);
    let dist = floor_sqrt(d2);
    let next = stepped(from, to, speed);
    let gx = gap(from.0, to.0);
    let gy = gap(from.1, to.1);
    let mx = (gx * speed) / dist;
    let my = (gy * speed) / dist;
    lemma_floor_sqrt_at_least(d2, speed);
    lemma_gaps_within(from, to);
    lemma_toward_gap(from.0, to.0, speed, dist);
    lemma_toward_gap(from.1, to.1, speed, dist);
    lemma_gap_squared(from.0, to.0);
    lemma_gap_squared(from.1, to.1);
    lemma_gap_squared(next.0, to.0);
    lemma_gap_squared(next.1, to.1);
    assert(d2 == gx * gx + gy * gy);
    assert(dist_sq(next, to) == (gx - mx) * (gx - mx) + (gy - my) * (gy - my));
    // the longer of the two gaps moves by at least one sub-unit
    if gx >= gy {
        lemma_longer_gap_moves(gx, gy, speed, dist);
    } else {
        lemma_longer_gap_moves(gy, gx, speed, dist);
    }
    assert((gx - mx) * (gx - mx) + (gy - my) * (gy - my) < gx * gx + gy * gy) by (nonlinear_arith)
        requires
            0 <= mx <= gx,
            0 <= my <= gy,
            mx >= 1 || my >= 1,
    ;
}

/// The longer gap, scaled by a speed of two or more, is at least the
/// distance, so that its share of the step is at least one sub-unit.
proof fn lemma_longer_gap_moves(long: int, short: int, speed: int, dist: int)
    requires
        0 <= short <= long,
        2 <= speed,
        0 < dist,
        dist * dist <= long * long + short * short,
    ensures
        (long * speed) / dist >= 1,
{
    assert(short * short <= long * long) by (nonlinear_arith)
        requires
            0 <= short <= long,
    ;
    if long * speed < dist {
        assert((long * speed) * (long * speed) < dist * dist) by (nonlinear_arith)
            requires
                0 <= long * speed < dist,
        ;
        assert((long * speed) * (long * speed) >= 4 * (long * long)) by (nonlinear_arith)
            requires
                0 <= long,
                2 <= speed,
        ;
        assert(false);
    }
    vstd::arithmetic::div_mod::lemma_div_is_ordered(dist, long * speed, dist);
    vstd::arithmetic::div_mod::lemma_div_by_multiple(1, dist);
}

/// One coordinate after a step that is no longer than the displacement.
fn advance_coordinate(from: i32, to: i32, speed: u32, dist: u64) -> (r: i32)
    requires
        speed <= dist,
    ensures
        r as int == toward(from as int, to as int, speed as int, dist as int),
{
    if dist == 0 {
        return from;
    }
    let gap: u64 = span(from, to);
    assert(gap * speed <= 0xffff_ffff * 0xffff_ffff) by (nonlinear_arith)
        requires
            0 <= gap <= 0xffff_ffff,
            0 <= speed <= 0xffff_ffff,
    ;
    let moved: u64 = (gap * (speed as u64)) / dist;
    proof {
        lemma_toward_between(from as int, to as int, speed as int, dist as int);
    }
    if from <= to {
        (from as i64 + moved as i64) as i32
    } else {
        (from as i64 - moved as i64) as i32
    }
}

/// One tick of motion from `from` toward `to` at `speed`: the target itself
/// where it is strictly nearer than `speed`, with `true`; else the point one
/// step along the unit displacement vector, with `false`.
pub fn approach(from: (i32, i32), to: (i32, i32), speed: u32) -> (r: ((i32, i32), bool))
    ensures
        r.1 == nearer_than(point(from), point(to), speed as int),
        r.1 ==> r.0 == to,
        !r.1 ==> point(r.0) == stepped(point(from), point(to), speed as int),
        between(from.0 as int, r.0.0 as int, to.0 as int),
        between(from.1 as int, r.0.1 as int, to.1 as int),
{
    let d2: u128 = distance_squared(from, to);
    let s: u128 = speed as u128;
    assert(s * s <= 0xffff_ffff * 0xffff_ffff) by (nonlinear_arith)
        requires
            0 <= s <= 0xffff_ffff,
    ;
    if d2 < s * s {
        (to, true)
    } else {
        let dist: u64 = isqrt(d2);
        proof {
            lemma_floor_sqrt_at_least(d2 as int, speed as int);
            lemma_toward_between(from.0 as int, to.0 as int, speed as int, dist as int);
            lemma_toward_between(from.1 as int, to.1 as int, speed as int, dist as int);
        }
        let x: i32 = advance_coordinate(from.0, to.0, speed, dist);
        let y: i32 = advance_coordinate(from.1, to.1, speed, dist);
        ((x, y), false)
    }
}

} // verus!
