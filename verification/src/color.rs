//! The perceptual color model.
//!
//! A color is a point of the CIE L*u*v* space in fixed point: each axis is an
//! integer count of 1/65536ths. Distances are Euclidean; since squaring keeps
//! the order of distances, comparisons are made on squared distances, which
//! are exact.

use vstd::prelude::*;
use vstd::arithmetic::div_mod::{
    lemma_fundamental_div_mod, lemma_fundamental_div_mod_converse, lemma_mod_bound,
};
use crate::minimum::{first_min, is_first_min, lemma_first_min_is};

verus! {

/// The fixed-point value of 1.0 on every axis.
pub const LUV_ONE: i32 = 65536;

/// A color in L*u*v*, each axis in units of 1/65536.
#[derive(Clone, Copy, Debug, PartialEq, Eq, Structural)]
pub struct Luv {
    /// Lightness, 0 for black and `100 * LUV_ONE` for white.
    pub l: i32,
    /// The first chroma axis.
    pub u: i32,
    /// The second chroma axis.
    pub v: i32,
}

/// An 8-bit sRGB color, as terminals take it.
#[derive(Clone, Copy, Debug, PartialEq, Eq, Structural)]
pub struct Rgb8 {
    /// Red.
    pub r: u8,
    /// Green.
    pub g: u8,
    /// Blue.
    pub b: u8,
}

/// Black: the origin of the space.
pub open spec fn black() -> Luv {
    Luv { l: 0, u: 0, v: 0 }
}

/// The squared Euclidean distance between two colors.
pub open spec fn dist_sq(a: Luv, b: Luv) -> int {
    (a.l - b.l) * (a.l - b.l) + (a.u - b.u) * (a.u - b.u) + (a.v - b.v) * (a.v - b.v)
}

/// The largest integer whose square does not exceed `n`.
pub open spec fn floor_sqrt(n: nat) -> nat
    decreases n,
{
    if n == 0 {
        0
    } else {
        let r = floor_sqrt((n - 1) as nat);
        if (r + 1) * (r + 1) <= n {
            r + 1
        } else {
            r
        }
    }
}

/// The Euclidean distance between two colors, rounded down.
pub open spec fn dist(a: Luv, b: Luv) -> nat {
    floor_sqrt(dist_sq(a, b) as nat)
}

/// `floor_sqrt(n)` is the one number whose square is at most `n` while the
/// square of its successor is not.
pub proof fn lemma_floor_sqrt(n: nat)
    ensures
        floor_sqrt(n) * floor_sqrt(n) <= n < (floor_sqrt(n) + 1) * (floor_sqrt(n) + 1),
    decreases n,
{
    let s = floor_sqrt(n);
    if n > 0 {
        lemma_floor_sqrt((n - 1) as nat);
        let r = floor_sqrt((n - 1) as nat);
        if (r + 1) * (r + 1) <= n {
            assert(s == r + 1);
            assert(s * s <= n < (s + 1) * (s + 1)) by (nonlinear_arith)
                requires
                    s == r + 1,
                    (r + 1) * (r + 1) <= n,
                    n - 1 < (r + 1) * (r + 1),
            ;
        } else {
            assert(s == r);
            assert(s * s <= n < (s + 1) * (s + 1)) by (nonlinear_arith)
                requires
                    s == r,
                    r * r <= n - 1,
                    !((r + 1) * (r + 1) <= n),
            ;
        }
    } else {
        assert(s * s <= n < (s + 1) * (s + 1)) by (nonlinear_arith)
            requires
                s == 0,
                n == 0,
        ;
    }
}

/// A number with the two bounds of `lemma_floor_sqrt` is `floor_sqrt(n)`.
pub proof fn lemma_floor_sqrt_unique(n: nat, r: nat)
    requires
        r * r <= n < (r + 1) * (r + 1),
    ensures
        r == floor_sqrt(n),
{
    lemma_floor_sqrt(n);
    let s = floor_sqrt(n);
    assert(r == s) by (nonlinear_arith)
        requires
            r * r <= n < (r + 1) * (r + 1),
            s * s <= n < (s + 1) * (s + 1),
    ;
}

impl Luv {
    /// A color from its three fixed-point coordinates.
    pub fn new(l: i32, u: i32, v: i32) -> (c: Luv)
        ensures
            c == (Luv { l, u, v }),
    {
        Luv { l, u, v }
    }

    /// Black, the color that brightness is measured from.
    pub fn black() -> (c: Luv)
        ensures
            c == black(),
    {
        Luv { l: 0, u: 0, v: 0 }
    }
}

fn square_of_difference(a: i32, b: i32) -> (s: u128)
    ensures
        s == (a - b) * (a - b),
        s <= 0xffff_ffff * 0xffff_ffff,
{
    let d: i128 = a as i128 - b as i128;
    assert(0 <= d * d <= 0xffff_ffff * 0xffff_ffff) by (nonlinear_arith)
        requires
            -0xffff_ffff <= d <= 0xffff_ffff,
    ;
    (d * d) as u128
}

/// The squared distance between two colors.
pub fn luv_distance_sq(a: Luv, b: Luv) -> (d: u128)
    ensures
        d == dist_sq(a, b),
        d <= 3 * (0xffff_ffff * 0xffff_ffff),
{
    let dl = square_of_difference(a.l, b.l);
    let du = square_of_difference(a.u, b.u);
    let dv = square_of_difference(a.v, b.v);
    dl + du + dv
}

/// The integer square root, by bisection.
pub fn integer_sqrt(n: u128) -> (r: u64)
    ensures
        r == floor_sqrt(n as nat),
{
    let mut lo: u128 = 0;
    let mut hi: u128 = 0x1_0000_0000_0000_0000;
    assert(n < hi * hi) by (nonlinear_arith)
        requires
            hi == 0x1_0000_0000_0000_0000,
            n <= u128::MAX,
    ;
    while hi - lo > 1
        invariant
            lo < hi <= 0x1_0000_0000_0000_0000,
            lo * lo <= n < hi * hi,
        decreases hi - lo,
    {
        let mid: u128 = lo + (hi - lo) / 2;
        assert(mid * mid <= 0xffff_ffff_ffff_ffff * 0xffff_ffff_ffff_ffff) by (nonlinear_arith)
            requires
                0 <= mid <= 0xffff_ffff_ffff_ffff,
        ;
        if mid * mid <= n {
            lo = mid;
        } else {
            hi = mid;
        }
    }
    proof {
        lemma_floor_sqrt_unique(n as nat, lo as nat);
    }
    lo as u64
}

/// The Euclidean distance between two colors, rounded down to a whole number
/// of 1/65536ths.
pub fn luv_distance(c1: Luv, c2: Luv) -> (d: u64)
    ensures
        d == dist(c1, c2),
{
    integer_sqrt(luv_distance_sq(c1, c2))
}

/// The share that the first of two colors has in a blend of the two.
#[derive(Clone, Copy, Debug, PartialEq, Eq, Structural)]
pub enum Share {
    /// One part of the first color to three of the second.
    Quarter,
    /// Equal parts.
    Half,
    /// Three parts of the first color to one of the second.
    ThreeQuarters,
}

/// One axis of a blend: the weighted mean of `a` and `b`, rounded down.
pub open spec fn blend_axis(a: int, b: int, share: Share) -> int {
    match share {
        Share::Quarter => (a + 3 * b) / 4,
        Share::Half => (2 * a + 2 * b) / 4,
        Share::ThreeQuarters => (3 * a + b) / 4,
    }
}

/// The blend of two colors, axis by axis.
pub open spec fn blended(a: Luv, b: Luv, share: Share) -> Luv {
    Luv {
        l: blend_axis(a.l as int, b.l as int, share) as i32,
        u: blend_axis(a.u as int, b.u as int, share) as i32,
        v: blend_axis(a.v as int, b.v as int, share) as i32,
    }
}

/// The sums of the three axes over a sequence of colors.
pub open spec fn axis_sums(colors: Seq<Luv>) -> (int, int, int)
    decreases colors.len(),
{
    if colors.len() == 0 {
        (0, 0, 0)
    } else {
        let rest = axis_sums(colors.drop_last());
        let c = colors.last();
        (rest.0 + c.l, rest.1 + c.u, rest.2 + c.v)
    }
}

/// The mean of a sequence of colors, each axis rounded down; black for the
/// empty sequence.
pub open spec fn average(colors: Seq<Luv>) -> Luv {
    if colors.len() == 0 {
        black()
    } else {
        let sums = axis_sums(colors);
        Luv {
            l: (sums.0 / colors.len() as int) as i32,
            u: (sums.1 / colors.len() as int) as i32,
            v: (sums.2 / colors.len() as int) as i32,
        }
    }
}

/// The lightness of each color, as keys for a scan that seeks the darkest.
pub open spec fn lightness_keys(colors: Seq<Luv>) -> Seq<int> {
    Seq::new(colors.len(), |i: int| colors[i].l as int)
}

/// The negated lightness of each color, as keys for a scan that seeks the
/// lightest.
pub open spec fn darkness_keys(colors: Seq<Luv>) -> Seq<int> {
    Seq::new(colors.len(), |i: int| -(colors[i].l as int))
}

/// The first color of the greatest lightness.
pub open spec fn lightest(colors: Seq<Luv>) -> Luv {
    colors[first_min(darkness_keys(colors), None)]
}

/// The first color of the least lightness.
pub open spec fn darkest(colors: Seq<Luv>) -> Luv {
    colors[first_min(lightness_keys(colors), None)]
}

/// Division that rounds toward negative infinity.
fn div_floor(a: i128, n: i128) -> (q: i128)
    requires
        n > 0,
        a > i128::MIN,
    ensures
        q == a / n,
{
    if a >= 0 {
        a / n
    } else {
        let m: i128 = -(a + 1);
        let k: i128 = m / n;
        proof {
            lemma_fundamental_div_mod(m as int, n as int);
            lemma_mod_bound(m as int, n as int);
            let r = (m as int) % (n as int);
            assert(a == (-k - 1) * n + (n - r - 1)) by (nonlinear_arith)
                requires
                    m == n * k + r,
                    a == -m - 1,
            ;
            lemma_fundamental_div_mod_converse(a as int, n as int, -k - 1, n - r - 1);
        }
        -k - 1
    }
}

fn blend_one(a: i32, b: i32, share: Share) -> (r: i32)
    ensures
        r == blend_axis(a as int, b as int, share),
{
    let x: i128 = a as i128;
    let y: i128 = b as i128;
    let mixed: i128 = match share {
        Share::Quarter => x + 3 * y,
        Share::Half => 2 * x + 2 * y,
        Share::ThreeQuarters => 3 * x + y,
    };
    let q = div_floor(mixed, 4);
    q as i32
}

/// Mixes two colors: `share` of `a`, the rest of `b`.
pub fn blend(a: Luv, b: Luv, share: Share) -> (c: Luv)
    ensures
        c == blended(a, b, share),
{
    Luv {
        l: blend_one(a.l, b.l, share),
        u: blend_one(a.u, b.u, share),
        v: blend_one(a.v, b.v, share),
    }
}

proof fn lemma_axis_sums_step(colors: Seq<Luv>, n: int)
    requires
        0 <= n < colors.len(),
    ensures
        axis_sums(colors.take(n + 1)).0 == axis_sums(colors.take(n)).0 + colors[n].l,
        axis_sums(colors.take(n + 1)).1 == axis_sums(colors.take(n)).1 + colors[n].u,
        axis_sums(colors.take(n + 1)).2 == axis_sums(colors.take(n)).2 + colors[n].v,
{
    assert(colors.take(n + 1).drop_last() == colors.take(n));
}

proof fn lemma_mean_in_range(sum: int, n: int)
    requires
        n > 0,
        -0x8000_0000 * n <= sum <= 0x7fff_ffff * n,
    ensures
        -0x8000_0000 <= sum / n <= 0x7fff_ffff,
{
    lemma_fundamental_div_mod(sum, n);
    lemma_mod_bound(sum, n);
    let q = sum / n;
    let r = sum % n;
    assert(-0x8000_0000 <= q <= 0x7fff_ffff) by (nonlinear_arith)
        requires
            n > 0,
            sum == n * q + r,
            0 <= r < n,
            -0x8000_0000 * n <= sum <= 0x7fff_ffff * n,
    ;
}

/// The mean of the colors, or black when there are none.
pub fn average_color(colors: &[Luv]) -> (c: Luv)
    ensures
        c == average(colors@),
{
    let n = colors.len();
    if n == 0 {
        return Luv::black();
    }
    let mut l_sum: i128 = 0;
    let mut u_sum: i128 = 0;
    let mut v_sum: i128 = 0;
    let mut i: usize = 0;
    while i < n
        invariant
            n == colors.len(),
            i <= n,
            l_sum == axis_sums(colors@.take(i as int)).0,
            u_sum == axis_sums(colors@.take(i as int)).1,
            v_sum == axis_sums(colors@.take(i as int)).2,
            -0x8000_0000 * i <= l_sum <= 0x7fff_ffff * i,
            -0x8000_0000 * i <= u_sum <= 0x7fff_ffff * i,
            -0x8000_0000 * i <= v_sum <= 0x7fff_ffff * i,
        decreases n - i,
    {
        proof {
            lemma_axis_sums_step(colors@, i as int);
        }
        let c = colors[i];
        l_sum = l_sum + c.l as i128;
        u_sum = u_sum + c.u as i128;
        v_sum = v_sum + c.v as i128;
        i = i + 1;
    }
    proof {
        assert(colors@.take(n as int) == colors@);
        lemma_mean_in_range(l_sum as int, n as int);
        lemma_mean_in_range(u_sum as int, n as int);
        lemma_mean_in_range(v_sum as int, n as int);
    }
    let l = div_floor(l_sum, n as i128);
    let u = div_floor(u_sum, n as i128);
    let v = div_floor(v_sum, n as i128);
    Luv { l: l as i32, u: u as i32, v: v as i32 }
}

/// The lightest and the darkest of the colors by lightness; of several
/// equally light or dark, the first.
pub fn find_lightest_darkest(colors: &[Luv]) -> (pair: (Luv, Luv))
    requires
        colors@.len() > 0,
    ensures
        pair.0 == lightest(colors@),
        pair.1 == darkest(colors@),
{
    let mut hi: usize = 0;
    let mut lo: usize = 0;
    let mut i: usize = 1;
    while i < colors.len()
        invariant
            1 <= i <= colors.len(),
            is_first_min(darkness_keys(colors@).take(i as int), None, hi as int),
            is_first_min(lightness_keys(colors@).take(i as int), None, lo as int),
        decreases colors.len() - i,
    {
        if colors[i].l > colors[hi].l {
            hi = i;
        }
        if colors[i].l < colors[lo].l {
            lo = i;
        }
        i = i + 1;
    }
    proof {
        assert(darkness_keys(colors@).take(i as int) == darkness_keys(colors@));
        assert(lightness_keys(colors@).take(i as int) == lightness_keys(colors@));
        lemma_first_min_is(darkness_keys(colors@), None, hi as int);
        lemma_first_min_is(lightness_keys(colors@), None, lo as int);
    }
    (colors[hi], colors[lo])
}

} // verus!
