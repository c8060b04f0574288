use vstd::prelude::*;

verus! {

/// Lengths are counted in thousandths of a typographic point.
pub const PT: i64 = 1000;

/// The largest length that a region, a frame or a style may hold.
pub const LEN_MAX: i64 = 1_000_000_000_000;

/// The largest base length against which a relative length is resolved.
pub const SPAN_MAX: i64 = 4_000_000_000_000_000;

/// A ratio is counted in millionths: `RATIO_ONE` stands for 100%.
pub const RATIO_ONE: i64 = 1_000_000;

/// The largest ratio that a relative length may hold (1000 times the base).
pub const RATIO_MAX: i64 = 1_000_000_000;

/// A width and a height.
#[derive(Clone, Copy, Debug, PartialEq, Eq, Hash)]
pub struct Size {
    pub x: i64,
    pub y: i64,
}

impl Size {
    pub open spec fn wf(self) -> bool {
        0 <= self.x <= LEN_MAX && 0 <= self.y <= LEN_MAX
    }

    pub fn new(x: i64, y: i64) -> (r: Size)
        ensures
            r.x == x,
            r.y == y,
    {
        Size { x, y }
    }
}

/// A position relative to the top left corner of a frame.
#[derive(Clone, Copy, Debug, PartialEq, Eq, Hash)]
pub struct Point {
    pub x: i64,
    pub y: i64,
}

/// One value for each of the four edges of a box.
#[derive(Clone, Copy, Debug, PartialEq, Eq, Hash)]
pub struct Sides<T> {
    pub left: T,
    pub top: T,
    pub right: T,
    pub bottom: T,
}

impl<T: Copy> Sides<T> {
    pub open spec fn splat_spec(v: T) -> Sides<T> {
        Sides { left: v, top: v, right: v, bottom: v }
    }

    /// The same value on every side.
    pub fn splat(v: T) -> (r: Sides<T>)
        ensures
            r == Sides::splat_spec(v),
    {
        Sides { left: v, top: v, right: v, bottom: v }
    }
}

/// A length made of a part relative to a base length and an absolute part:
/// `ratio / RATIO_ONE * base + abs`.
#[derive(Clone, Copy, Debug, PartialEq, Eq, Hash)]
pub struct Rel {
    pub ratio: i64,
    pub abs: i64,
}

impl Rel {
    /// Both parts are non-negative and in range.
    pub open spec fn wf(self) -> bool {
        0 <= self.ratio <= RATIO_MAX && 0 <= self.abs <= LEN_MAX
    }

    /// The length `ratio * base + abs`, rounded down.
    pub open spec fn resolve_spec(self, base: int) -> int {
        self.abs + (self.ratio * base) / (RATIO_ONE as int)
    }

    /// The length `ratio * (base / 2) + abs`, rounded down.
    pub open spec fn resolve_half_spec(self, base: int) -> int {
        self.abs + (self.ratio * base) / (2 * RATIO_ONE as int)
    }

    pub open spec fn zero_spec() -> Rel {
        Rel { ratio: 0, abs: 0 }
    }

    /// A purely absolute length.
    pub fn length(abs: i64) -> (r: Rel)
        ensures
            r.ratio == 0,
            r.abs == abs,
    {
        Rel { ratio: 0, abs }
    }

    /// A purely relative length, in millionths of the base.
    pub fn ratio(ratio: i64) -> (r: Rel)
        ensures
            r.ratio == ratio,
            r.abs == 0,
    {
        Rel { ratio, abs: 0 }
    }

    /// Resolves the length against a base length.
    pub fn resolve(&self, base: i64) -> (r: i64)
        requires
            self.wf(),
            0 <= base <= SPAN_MAX,
        ensures
            r == self.resolve_spec(base as int),
            0 <= r <= self.abs + 1000 * base,
    {
        proof {
            lemma_scaled_bound(self.ratio as int, base as int, RATIO_ONE as int);
            let n = self.ratio * base;
            assert(n <= RATIO_ONE * (1000 * base)) by (nonlinear_arith)
                requires n == self.ratio * base, self.ratio <= RATIO_MAX, 0 <= base;
            vstd::arithmetic::div_mod::lemma_div_is_ordered(n, RATIO_ONE * (1000 * base), RATIO_ONE as int);
            vstd::arithmetic::div_mod::lemma_div_multiples_vanish(1000 * base, RATIO_ONE as int);
        }
        let p: i128 = (self.ratio as i128) * (base as i128);
        let q: i128 = p / (RATIO_ONE as i128);
        (self.abs as i128 + q) as i64
    }

    /// Resolves the length against half of a base length.
    pub fn resolve_half(&self, base: i64) -> (r: i64)
        requires
            self.wf(),
            0 <= base <= SPAN_MAX,
        ensures
            r == self.resolve_half_spec(base as int),
            0 <= r,
    {
        proof { lemma_scaled_bound(self.ratio as int, base as int, 2 * RATIO_ONE as int); }
        let p: i128 = (self.ratio as i128) * (base as i128);
        let q: i128 = p / (2 * RATIO_ONE as i128);
        (self.abs as i128 + q) as i64
    }
}

/// A product of a ratio and a base, scaled down, stays in range.
proof fn lemma_scaled_bound(ratio: int, base: int, d: int)
    requires
        0 <= ratio <= RATIO_MAX,
        0 <= base <= SPAN_MAX,
        RATIO_ONE <= d,
    ensures
        0 <= ratio * base <= RATIO_MAX * SPAN_MAX,
        0 <= (ratio * base) / d <= RATIO_MAX * SPAN_MAX / RATIO_ONE as int,
{
    assert(0 <= ratio * base <= RATIO_MAX * SPAN_MAX) by (nonlinear_arith)
        requires
            0 <= ratio <= RATIO_MAX,
            0 <= base <= SPAN_MAX,
    ;
    let n = ratio * base;
    let m = RATIO_MAX * SPAN_MAX;
    assert(0 <= n / d <= m / d) by {
        vstd::arithmetic::div_mod::lemma_div_is_ordered(n, m, d);
        vstd::arithmetic::div_mod::lemma_div_pos_is_pos(n, d);
    }
    assert(m / d <= m / (RATIO_ONE as int)) by {
        vstd::arithmetic::div_mod::lemma_div_is_ordered_by_denominator(m, RATIO_ONE as int, d);
    }
}

/// A padding relative to a base length, with a ratio in the field of the
/// rationals extended by the square root of two:
/// `(ratio + ratio_sqrt2 * sqrt(2)) / RATIO_ONE * base + abs`.
#[derive(Clone, Copy, Debug, PartialEq, Eq, Hash)]
pub struct Pad {
    pub ratio: i64,
    pub ratio_sqrt2: i64,
    pub abs: i64,
}

/// Whether `x <= b * sqrt(2)`, decided over the integers.
pub open spec fn le_sqrt2(x: int, b: int) -> bool {
    if b >= 0 {
        x <= 0 || x * x <= 2 * b * b
    } else {
        x <= 0 && x * x >= 2 * b * b
    }
}

/// A number below `b * sqrt(2)` is below every number above it.
proof fn lemma_le_sqrt2_mono(x: int, y: int, b: int)
    requires
        le_sqrt2(x, b),
        y <= x,
    ensures
        le_sqrt2(y, b),
{
    if b >= 0 {
        if y > 0 {
            assert(y * y <= x * x) by (nonlinear_arith)
                requires 0 < y <= x;
        }
    } else {
        assert(y * y >= x * x) by (nonlinear_arith)
            requires y <= x <= 0;
    }
}

/// The bound below which `isqrt` takes its argument: two to the 122nd.
pub const ISQRT_LIMIT: u128 = 5316911983139663491615228241121378304;

/// The integer square root: the largest `r` with `r * r <= n`.
pub fn isqrt(n: u128) -> (r: u128)
    requires
        n < ISQRT_LIMIT,
    ensures
        r * r <= n < (r + 1) * (r + 1),
{
    let mut lo: u128 = 0;
    let mut hi: u128 = 2305843009213693952;
    assert(hi * hi == ISQRT_LIMIT);
    while hi - lo > 1
        invariant
            lo < hi <= 2305843009213693952,
            lo * lo <= n < hi * hi,
        decreases hi - lo,
    {
        let mid: u128 = lo + (hi - lo) / 2;
        assert(mid * mid <= 2305843009213693952 * 2305843009213693952) by (nonlinear_arith)
            requires mid < 2305843009213693952;
        if mid * mid <= n {
            lo = mid;
        } else {
            hi = mid;
        }
    }
    lo
}

/// The largest integer not above `b * sqrt(2)`.
fn floor_sqrt2_times(b: i128) -> (f: i128)
    requires
        -1_000_000_000_000_000_000 <= b <= 1_000_000_000_000_000_000,
    ensures
        le_sqrt2(f as int, b as int),
        !le_sqrt2(f + 1, b as int),
        -2 * b <= f <= 2 * b || 2 * b <= f <= -2 * b,
{
    let m: u128 = if b >= 0 { b as u128 } else { (-b) as u128 };
    assert(m * m <= 1_000_000_000_000_000_000_000_000_000_000_000_000) by (nonlinear_arith)
        requires m <= 1_000_000_000_000_000_000;
    let n: u128 = 2 * (m * m);
    assert(n == 2 * b * b) by (nonlinear_arith)
        requires n == 2 * (m * m), m == b || m == -b;
    let s: u128 = isqrt(n);
    assert(s <= 2 * m) by (nonlinear_arith)
        requires s * s <= n, n == 2 * (m * m), 0 <= s, 0 <= m;
    let ghost si: int = s as int;
    let ghost bi: int = b as int;
    if b >= 0 {
        assert(le_sqrt2(si, bi));
        assert(!le_sqrt2(si + 1, bi));
        s as i128
    } else if s * s == n {
        assert((si - 1) * (si - 1) < 2 * bi * bi) by (nonlinear_arith)
            requires si * si == 2 * bi * bi, bi < 0, si >= 0;
        assert((-si) * (-si) == si * si) by (nonlinear_arith);
        assert((-si + 1) * (-si + 1) == (si - 1) * (si - 1)) by (nonlinear_arith);
        assert(le_sqrt2(-si, bi));
        assert(!le_sqrt2(-si + 1, bi));
        -(s as i128)
    } else {
        assert(s + 1 <= 2 * m) by (nonlinear_arith)
            requires s * s < n, n < (s + 1) * (s + 1), n == 2 * (m * m), 0 <= s, 0 < m;
        assert((-si - 1) * (-si - 1) == (si + 1) * (si + 1)) by (nonlinear_arith);
        assert((-si) * (-si) == si * si) by (nonlinear_arith);
        assert(le_sqrt2(-si - 1, bi));
        assert(!le_sqrt2(-si, bi));
        -(s as i128) - 1
    }
}

impl Pad {
    /// The padding that a relative length stands for.
    pub open spec fn of_rel(r: Rel) -> Pad {
        Pad { ratio: r.ratio, ratio_sqrt2: 0, abs: r.abs }
    }

    /// The parts are in range and the ratio is not negative.
    pub open spec fn wf(self) -> bool {
        &&& 0 <= self.ratio <= RATIO_MAX + RATIO_ONE
        &&& -RATIO_ONE <= self.ratio_sqrt2 <= RATIO_ONE
        &&& 0 <= self.abs <= LEN_MAX
        &&& self.ratio_sqrt2 < 0 ==> 2 * self.ratio_sqrt2 * self.ratio_sqrt2 <= self.ratio * self.ratio
    }

    /// Whether `v` is `(ratio + ratio_sqrt2 * sqrt(2)) / RATIO_ONE * base`,
    /// rounded down: `v * RATIO_ONE <= ratio * base + ratio_sqrt2 * base * sqrt(2)`
    /// and `(v + 1) * RATIO_ONE` is above it.
    pub open spec fn is_scaled_floor(self, base: int, v: int) -> bool {
        &&& le_sqrt2(v * RATIO_ONE - self.ratio * base, self.ratio_sqrt2 * base)
        &&& !le_sqrt2((v + 1) * RATIO_ONE - self.ratio * base, self.ratio_sqrt2 * base)
    }

    /// Resolves the padding against a base length, exactly and rounded down:
    /// the result is `abs` plus the one `v` with `is_scaled_floor`.
    pub fn resolve(&self, base: i64) -> (r: i64)
        requires
            self.wf(),
            0 <= base <= LEN_MAX,
        ensures
            self.is_scaled_floor(base as int, r - self.abs),
            self.abs <= r,
    {
        proof {
            let t = self.ratio as int;
            let u = self.ratio_sqrt2 as int;
            let e = base as int;
            assert(0 <= t * e <= (RATIO_MAX + RATIO_ONE) * LEN_MAX) by (nonlinear_arith)
                requires 0 <= t <= RATIO_MAX + RATIO_ONE, 0 <= e <= LEN_MAX;
            assert(-RATIO_ONE * LEN_MAX <= u * e <= RATIO_ONE * LEN_MAX) by (nonlinear_arith)
                requires -RATIO_ONE <= u <= RATIO_ONE, 0 <= e <= LEN_MAX;
        }
        let a: i128 = (self.ratio as i128) * (base as i128);
        let b: i128 = (self.ratio_sqrt2 as i128) * (base as i128);
        let f: i128 = floor_sqrt2_times(b);
        proof {
            if b < 0 {
                let s = self.ratio_sqrt2 as int;
                let t = self.ratio as int;
                assert(2 * b * b <= a * a) by (nonlinear_arith)
                    requires a == t * base, b == s * base, 2 * s * s <= t * t, 0 <= base;
                assert((-a) * (-a) == a * a) by (nonlinear_arith);
            }
            assert(le_sqrt2(-a, b as int));
            if f + 1 <= -a {
                lemma_le_sqrt2_mono(-a, f + 1, b as int);
            }
        }
        let v: i128 = (a + f) / (RATIO_ONE as i128);
        proof {
            let d = RATIO_ONE as int;
            vstd::arithmetic::div_mod::lemma_fundamental_div_mod(a + f, d);
            vstd::arithmetic::div_mod::lemma_mod_pos_bound(a + f, d);
            lemma_le_sqrt2_mono(f as int, v * d - a, b as int);
            if le_sqrt2((v + 1) * d - a, b as int) {
                lemma_le_sqrt2_mono((v + 1) * d - a, f + 1, b as int);
            }
            vstd::arithmetic::div_mod::lemma_div_is_ordered(a + f, (RATIO_MAX + RATIO_ONE) * LEN_MAX + 2 * RATIO_ONE * LEN_MAX, d);
            vstd::arithmetic::div_mod::lemma_div_pos_is_pos(a + f, d);
        }
        (self.abs as i128 + v) as i64
    }
}

/// The space offered to a layout: the size to fill or stay within, the base
/// for relative lengths, and for each axis whether the target is to be filled
/// exactly.
#[derive(Clone, Copy, Debug, PartialEq, Eq, Hash)]
pub struct Region {
    pub target: Size,
    pub base: Size,
    pub expand_x: bool,
    pub expand_y: bool,
}

impl Region {
    pub open spec fn wf(self) -> bool {
        self.target.wf() && self.base.wf()
    }

    /// Whether a box of the given size fills the target on each axis that expands.
    pub open spec fn honored_by(self, size: Size) -> bool {
        (self.expand_x ==> size.x == self.target.x) && (self.expand_y ==> size.y == self.target.y)
    }
}

/// The rounded-down scaled padding is one integer: `Pad::resolve` has
/// one result for each base.
pub proof fn lemma_scaled_floor_unique(p: Pad, base: int, v: int, w: int)
    requires
        p.is_scaled_floor(base, v),
        p.is_scaled_floor(base, w),
    ensures
        v == w,
{
    let a = p.ratio * base;
    let b = p.ratio_sqrt2 * base;
    if v < w {
        lemma_le_sqrt2_mono(w * RATIO_ONE - a, (v + 1) * RATIO_ONE - a, b);
    } else if w < v {
        lemma_le_sqrt2_mono(v * RATIO_ONE - a, (w + 1) * RATIO_ONE - a, b);
    }
}

} // verus!
