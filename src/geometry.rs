use vstd::prelude::*;

verus! {

/// Largest magnitude of a coordinate of a position, in millimetres.
pub const COORD_LIMIT: i64 = 1073741824;

/// Resolution of a direction's length: lengths are measured in
/// 1/1024 of a millimetre when a vector is scaled.
pub const LENGTH_SCALE: i64 = 1024;

/// Largest magnitude a vector may be scaled to.
pub const MAGNITUDE_LIMIT: i64 = 1073741824;

/// A point or a displacement in world space, in millimetres.
#[derive(Clone, Copy, Debug, PartialEq, Eq, Structural)]
pub struct Vec3i {
    pub x: i64,
    pub y: i64,
    pub z: i64,
}

/// Squared Euclidean length of `v`.
pub open spec fn norm_sq(v: Vec3i) -> int {
    v.x * v.x + v.y * v.y + v.z * v.z
}

/// Squared Euclidean distance between `a` and `b`.
pub open spec fn dist_sq(a: Vec3i, b: Vec3i) -> int {
    let dx = b.x - a.x;
    let dy = b.y - a.y;
    let dz = b.z - a.z;
    dx * dx + dy * dy + dz * dz
}

/// Largest `r` with `r * r <= n`.
pub open spec fn floor_sqrt(n: nat) -> nat
    decreases n,
{
    if n == 0 {
        0
    } else {
        let r = floor_sqrt((n - 1) as nat);
        if (r + 1) * (r + 1) <= n {
            r + 1
        } else {
            r
        }
    }
}

/// Length of `v` in units of 1/`LENGTH_SCALE` millimetre, rounded down.
pub open spec fn fine_length(v: Vec3i) -> nat {
    floor_sqrt((norm_sq(v) * LENGTH_SCALE * LENGTH_SCALE) as nat)
}

/// One component of `d` scaled by `magnitude / len` (with `len` in fine
/// units), rounded toward zero.
pub open spec fn scaled_component(d: int, magnitude: int, len: int) -> int {
    if d >= 0 {
        (d * magnitude * LENGTH_SCALE) / len
    } else {
        -(((-d) * magnitude * LENGTH_SCALE) / len)
    }
}

/// `d` rescaled to length `magnitude`, componentwise rounded toward zero.
pub open spec fn scaled_to(d: Vec3i, magnitude: int) -> Vec3i {
    let len = fine_length(d) as int;
    Vec3i {
        x: scaled_component(d.x as int, magnitude, len) as i64,
        y: scaled_component(d.y as int, magnitude, len) as i64,
        z: scaled_component(d.z as int, magnitude, len) as i64,
    }
}

pub proof fn lemma_floor_sqrt_bounds(n: nat)
    ensures
        floor_sqrt(n) * floor_sqrt(n) <= n,
        n < (floor_sqrt(n) + 1) * (floor_sqrt(n) + 1),
    decreases n,
{
    if n == 0 {
        assert(floor_sqrt(0) == 0);
        let z = floor_sqrt(n);
        assert(n < (z + 1) * (z + 1)) by (nonlinear_arith)
            requires
                z == 0,
                n == 0,
        ;
    } else {
        lemma_floor_sqrt_bounds((n - 1) as nat);
        let r = floor_sqrt((n - 1) as nat);
        if (r + 1) * (r + 1) <= n {
            assert(floor_sqrt(n) == r + 1);
            assert((r + 1) * (r + 1) == n);
            let s1 = r + 1;
            assert(n < (s1 + 1) * (s1 + 1)) by (nonlinear_arith)
                requires
                    s1 == r + 1,
                    (r + 1) * (r + 1) == n,
                    r >= 0,
            ;
        } else {
            assert(floor_sqrt(n) == r);
        }
    }
}

/// `floor_sqrt(n)` is the one `r` with `r * r <= n < (r + 1) * (r + 1)`.
pub proof fn lemma_floor_sqrt_unique(n: nat, r: nat)
    requires
        r * r <= n,
        n < (r + 1) * (r + 1),
    ensures
        floor_sqrt(n) == r,
{
    lemma_floor_sqrt_bounds(n);
    let s = floor_sqrt(n);
    if s < r {
        assert((s + 1) * (s + 1) <= r * r) by (nonlinear_arith)
            requires
                s + 1 <= r,
                s >= 0,
        ;
    } else if r < s {
        assert((r + 1) * (r + 1) <= s * s) by (nonlinear_arith)
            requires
                r + 1 <= s,
                r >= 0,
        ;
    }
}

/// Any `k` with `k * k <= n` is at most `floor_sqrt(n)`.
pub proof fn lemma_floor_sqrt_lower(n: nat, k: nat)
    requires
        k * k <= n,
    ensures
        k <= floor_sqrt(n),
{
    lemma_floor_sqrt_bounds(n);
    let s = floor_sqrt(n);
    if s < k {
        assert((s + 1) * (s + 1) <= k * k) by (nonlinear_arith)
            requires
                s + 1 <= k,
                s >= 0,
        ;
    }
}

/// Floor of the square root of `n`.
pub fn isqrt(n: u128) -> (r: u64)
    requires
        n < 0x4000_0000_0000_0000_0000_0000_0000_0000,
    ensures
        r == floor_sqrt(n as nat),
{
    let mut lo: u128 = 0;
    let mut hi: u128 = 0x8000_0000_0000_0000;
    assert(hi * hi > n) by (nonlinear_arith)
        requires
            hi == 0x8000_0000_0000_0000u128,
            n < 0x4000_0000_0000_0000_0000_0000_0000_0000u128,
    ;
    while hi - lo > 1
        invariant
            lo < hi <= 0x8000_0000_0000_0000,
            lo * lo <= n,
            n < hi * hi,
        decreases hi - lo,
    {
        let mid: u128 = lo + (hi - lo) / 2;
        assert(mid * mid < 0x4000_0000_0000_0000_0000_0000_0000_0001) by (nonlinear_arith)
            requires
                mid <= 0x8000_0000_0000_0000u128,
        ;
        if mid * mid <= n {
            lo = mid;
        } else {
            hi = mid;
        }
    }
    proof {
        assert(hi == lo + 1);
        lemma_floor_sqrt_unique(n as nat, lo as nat);
    }
    lo as u64
}

impl Vec3i {
    /// Whether every coordinate is within `COORD_LIMIT` in magnitude.
    pub open spec fn in_bounds(self) -> bool {
        -COORD_LIMIT <= self.x <= COORD_LIMIT && -COORD_LIMIT <= self.y <= COORD_LIMIT
            && -COORD_LIMIT <= self.z <= COORD_LIMIT
    }

    /// Whether every component is within twice `COORD_LIMIT` in magnitude,
    /// as the difference of two in-bounds points is.
    pub open spec fn is_displacement(self) -> bool {
        -2 * COORD_LIMIT <= self.x <= 2 * COORD_LIMIT && -2 * COORD_LIMIT <= self.y <= 2
            * COORD_LIMIT && -2 * COORD_LIMIT <= self.z <= 2 * COORD_LIMIT
    }

    pub open spec fn zero_spec() -> Vec3i {
        Vec3i { x: 0, y: 0, z: 0 }
    }

    pub fn new(x: i64, y: i64, z: i64) -> (r: Vec3i)
        ensures
            r == (Vec3i { x, y, z }),
    {
        Vec3i { x, y, z }
    }

    pub fn zero() -> (r: Vec3i)
        ensures
            r == (Vec3i { x: 0, y: 0, z: 0 }),
    {
        Vec3i { x: 0, y: 0, z: 0 }
    }

    /// The displacement that leads from `self` to `to`.
    pub fn delta_to(&self, to: &Vec3i) -> (r: Vec3i)
        requires
            self.in_bounds(),
            to.in_bounds(),
        ensures
            r == (Vec3i { x: (to.x - self.x) as i64, y: (to.y - self.y) as i64, z: (to.z - self.z) as i64 }),
            r.is_displacement(),
            norm_sq(r) == dist_sq(*self, *to),
    {
        Vec3i { x: to.x - self.x, y: to.y - self.y, z: to.z - self.z }
    }

    /// Squared length of a displacement.
    pub fn norm_squared(&self) -> (r: u128)
        requires
            self.is_displacement(),
        ensures
            r == norm_sq(*self),
            r <= 3 * (2 * COORD_LIMIT) * (2 * COORD_LIMIT),
    {
        let x = self.x as i128;
        let y = self.y as i128;
        let z = self.z as i128;
        let lim: i128 = 2 * COORD_LIMIT as i128;
        assert(x * x <= lim * lim && y * y <= lim * lim && z * z <= lim * lim) by (nonlinear_arith)
            requires
                -lim <= x <= lim,
                -lim <= y <= lim,
                -lim <= z <= lim,
        ;
        assert(x * x >= 0 && y * y >= 0 && z * z >= 0) by (nonlinear_arith);
        (x * x + y * y + z * z) as u128
    }

    /// Whether `other` lies within `radius` of `self` (Euclidean distance).
    pub fn is_within(&self, other: &Vec3i, radius: i64) -> (r: bool)
        requires
            self.in_bounds(),
            other.in_bounds(),
            0 <= radius,
        ensures
            r == (dist_sq(*self, *other) <= radius * radius),
    {
        let d = self.delta_to(other);
        let rad = radius as u128;
        assert(rad * rad <= 0xffff_ffff_ffff_ffff_ffff_ffff_ffff_ffffu128) by (nonlinear_arith)
            requires
                rad <= 0x7fff_ffff_ffff_ffffu128,
        ;
        d.norm_squared() <= rad * rad
    }

    /// `self` (a nonzero displacement) rescaled to length `magnitude`.
    pub fn scaled_to(&self, magnitude: i64) -> (r: Vec3i)
        requires
            self.is_displacement(),
            *self != (Vec3i { x: 0, y: 0, z: 0 }),
            0 <= magnitude <= MAGNITUDE_LIMIT,
        ensures
            r == scaled_to(*self, magnitude as int),
            -magnitude <= r.x <= magnitude,
            -magnitude <= r.y <= magnitude,
            -magnitude <= r.z <= magnitude,
    {
        let n = self.norm_squared();
        let scale: u128 = (LENGTH_SCALE * LENGTH_SCALE) as u128;
        assert(n * scale < 0x4000_0000_0000_0000_0000_0000_0000_0000) by (nonlinear_arith)
            requires
                n <= 3 * (2 * COORD_LIMIT) * (2 * COORD_LIMIT),
                scale == 1048576,
        ;
        let len = isqrt(n * scale);
        proof {
            let v = *self;
            let ns = (norm_sq(v) * LENGTH_SCALE * LENGTH_SCALE) as nat;
            assert(ns == n * scale);
            lemma_component_within_length(v, v.x as int, len as nat);
            lemma_component_within_length(v, v.y as int, len as nat);
            lemma_component_within_length(v, v.z as int, len as nat);
            assert(len >= 1) by {
                if v.x != 0 {
                } else if v.y != 0 {
                } else {
                    assert(v.z != 0);
                }
            }
        }
        Vec3i {
            x: scale_component(self.x, magnitude, len),
            y: scale_component(self.y, magnitude, len),
            z: scale_component(self.z, magnitude, len),
        }
    }
}

/// Each component of `v`, in fine units, is at most its fine length.
proof fn lemma_component_within_length(v: Vec3i, c: int, len: nat)
    requires
        c == v.x || c == v.y || c == v.z,
        len == fine_length(v),
    ensures
        (if c >= 0 { c } else { -c }) * LENGTH_SCALE <= len,
{
    assert(norm_sq(v) >= 0) by (nonlinear_arith)
        requires
            norm_sq(v) == v.x * v.x + v.y * v.y + v.z * v.z,
    ;
    let ns = (norm_sq(v) * LENGTH_SCALE * LENGTH_SCALE) as nat;
    assert(ns == (v.x * v.x + v.y * v.y + v.z * v.z) * 1024 * 1024);
    let a: int = if c >= 0 { c } else { -c };
    assert((a * LENGTH_SCALE) * (a * LENGTH_SCALE) <= ns) by (nonlinear_arith)
        requires
            c == v.x || c == v.y || c == v.z,
            a == c || a == -c,
            a >= 0,
            ns == (v.x * v.x + v.y * v.y + v.z * v.z) * 1024 * 1024,
            LENGTH_SCALE == 1024,
    ;
    lemma_floor_sqrt_lower(ns, (a * LENGTH_SCALE) as nat);
}

/// One component scaled by `magnitude / len`, rounded toward zero.
fn scale_component(d: i64, magnitude: i64, len: u64) -> (r: i64)
    requires
        -2 * COORD_LIMIT <= d <= 2 * COORD_LIMIT,
        0 <= magnitude <= MAGNITUDE_LIMIT,
        1 <= len,
        (if d >= 0 { d as int } else { -d }) * LENGTH_SCALE <= len,
    ensures
        r == scaled_component(d as int, magnitude as int, len as int),
        -magnitude <= r <= magnitude,
{
    let a: u128 = if d >= 0 { d as u128 } else { (-(d as i128)) as u128 };
    let m = magnitude as u128;
    let l = len as u128;
    assert(a * m * 1024 <= 0x7fff_ffff_ffff_ffff_ffff_ffff_ffff_ffffu128) by (nonlinear_arith)
        requires
            a <= 2 * COORD_LIMIT,
            m <= MAGNITUDE_LIMIT,
    ;
    let q = a * m * 1024 / l;
    assert(q <= m) by (nonlinear_arith)
        requires
            a * 1024 <= l,
            l >= 1,
            q as int == (a * m * 1024) as int / (l as int),
    ;
    if d >= 0 {
        q as i64
    } else {
        -(q as i64)
    }
}

} // verus!
