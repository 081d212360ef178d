//! The channel abstraction: a color channel value is a number in a fixed
//! domain `[0, max]`, with clamping, inversion (complement relative to the
//! maximum), normalized multiplication (multiply two values as if both were
//! fractions of the maximum) and rescaling into other channel domains.

use vstd::prelude::*;
use vstd::arithmetic::div_mod::{
    lemma_basic_div, lemma_fundamental_div_mod, lemma_fundamental_div_mod_converse,
    lemma_multiply_divide_lt,
};

verus! {

/// Clamp of `x` to the inclusive range `[lo, hi]`.
pub open spec fn clamp_int(x: int, lo: int, hi: int) -> int {
    if x < lo {
        lo
    } else if x > hi {
        hi
    } else {
        x
    }
}

/// Normalized product of two channel values of the domain `[0, m]`: both are
/// read as fractions of `m`, so the product is rescaled back down by `m`
/// (truncating), staying inside the domain.
pub open spec fn norm_mul(a: int, b: int, m: int) -> int {
    a * b / m
}

/// Rescale `v` from the channel domain `[0, from_max]` into `[0, to_max]` by
/// the ratio of the maxima, rounding to the nearest representable value
/// (halves round up): the nearest integer to `v * to_max / from_max`.
pub open spec fn rescale(v: int, from_max: int, to_max: int) -> int {
    (2 * v * to_max + from_max) / (2 * from_max)
}

/// A fixed-point color channel domain: an unsigned integer type whose whole
/// range `[0, max]` stands for the interval of intensities from none to full.
pub trait Channel: Sized + Copy {
    /// The domain maximum, as a mathematical integer.
    spec fn cmax() -> int;

    /// The numeric value of a channel, as a mathematical integer.
    spec fn cval(self) -> int;

    /// Every channel domain has at least the two intensities 0 and max.
    proof fn lemma_cmax_positive()
        ensures
            1 <= Self::cmax() <= 0xffff_ffff,
    ;

    /// A channel value always lies inside its domain.
    proof fn lemma_cval_bounded(self)
        ensures
            0 <= self.cval() <= Self::cmax(),
    ;

    /// The domain maximum (full intensity).
    fn channel_max() -> (r: Self)
        ensures
            r.cval() == Self::cmax(),
    ;

    /// The domain minimum (no intensity).
    fn channel_zero() -> (r: Self)
        ensures
            r.cval() == 0,
    ;

    /// Whether the channel carries no intensity.
    fn is_zero(&self) -> (r: bool)
        ensures
            r <==> self.cval() == 0,
    ;

    /// Clamps the channel to the inclusive range `[lo, hi]`.
    fn clamp_channel(self, lo: Self, hi: Self) -> (r: Self)
        requires
            lo.cval() <= hi.cval(),
        ensures
            r.cval() == clamp_int(self.cval(), lo.cval(), hi.cval()),
    ;

    /// The complement relative to the domain maximum: `max - self`.
    fn invert_channel(self) -> (r: Self)
        ensures
            r.cval() == Self::cmax() - self.cval(),
    ;

    /// Multiplies two channel values as fractions of the maximum, widening
    /// before the division back down so that nothing overflows.
    fn normalized_mul(self, other: Self) -> (r: Self)
        ensures
            r.cval() == norm_mul(self.cval(), other.cval(), Self::cmax()),
    ;

    /// The raw numeric value of the channel.
    fn to_raw(self) -> (r: u64)
        ensures
            r == self.cval(),
    ;

    /// The channel whose numeric value is `raw`, which must be representable.
    fn from_raw(raw: u64) -> (r: Self)
        requires
            raw <= Self::cmax(),
        ensures
            r.cval() == raw,
    ;

    /// The raw numeric value of the domain maximum.
    fn max_raw() -> (r: u64)
        ensures
            r == Self::cmax(),
    ;

    /// The channel standing for the fraction `num / den`, rounded to the
    /// nearest representable value of this domain.
    fn from_ratio(num: u64, den: u64) -> (r: Self)
        requires
            1 <= den <= 0xffff_ffffu64,
            num <= den,
        ensures
            r.cval() == rescale(num as int, den as int, Self::cmax()),
    ;

}

/// Rescales a channel value from the domain `T` into the domain `U` by the
/// ratio of the two maxima, rounding to the nearest representable value of
/// `U`.
pub fn to_channel<T: Channel, U: Channel>(v: T) -> (r: U)
    ensures
        r.cval() == rescale(v.cval(), T::cmax(), U::cmax()),
{
    proof {
        T::lemma_cmax_positive();
        v.lemma_cval_bounded();
    }
    U::from_ratio(v.to_raw(), T::max_raw())
}

/// Rescaling the zero channel hits zero in every domain: black stays black.
pub proof fn lemma_rescale_zero(m: int, um: int)
    requires
        1 <= m,
    ensures
        rescale(0, m, um) == 0,
{
    assert(2 * 0 * um == 0) by (nonlinear_arith);
    lemma_basic_div(m, 2 * m);
    assert(rescale(0, m, um) == m / (2 * m));
}

/// Rescaling a channel value within one domain is exact: nothing is lost
/// when source and target have the same maximum.
pub proof fn lemma_rescale_identity(v: int, m: int)
    requires
        1 <= m,
        0 <= v <= m,
    ensures
        rescale(v, m, m) == v,
{
    assert(2 * v * m + m == v * (2 * m) + m) by (nonlinear_arith);
    lemma_fundamental_div_mod_converse(2 * v * m + m, 2 * m, v, m);
}

/// Rescaling into a finer domain whose maximum is a multiple `k * m` of the
/// source maximum `m` is exact: the value is carried to `v * k`.
pub proof fn lemma_rescale_up_exact(v: int, m: int, k: int)
    requires
        1 <= m,
        1 <= k,
        0 <= v <= m,
    ensures
        rescale(v, m, k * m) == v * k,
{
    assert(2 * v * (k * m) + m == (v * k) * (2 * m) + m) by (nonlinear_arith);
    lemma_fundamental_div_mod_converse(2 * v * (k * m) + m, 2 * m, v * k, m);
}

/// Round-trip domain rescale, coarse to fine and back: carrying a channel
/// value into a domain whose maximum is a multiple of its own and back
/// returns it unchanged.
pub proof fn lemma_rescale_round_trip_exact(v: int, m: int, k: int)
    requires
        1 <= m,
        1 <= k,
        0 <= v <= m,
    ensures
        rescale(rescale(v, m, k * m), k * m, m) == v,
{
    lemma_rescale_up_exact(v, m, k);
    assert(2 * (v * k) * m + k * m == v * (2 * (k * m)) + k * m) by (nonlinear_arith);
    assert(0 <= k * m < 2 * (k * m)) by (nonlinear_arith)
        requires
            1 <= m && 1 <= k,
    ;
    lemma_fundamental_div_mod_converse(2 * (v * k) * m + k * m, 2 * (k * m), v, k * m);
}

/// A fine-domain value rounded down into a coarse domain whose maximum
/// divides its own, expressed over the numerator alone: the result is the
/// nearest integer to `w / k` (halves rounded up).
proof fn lemma_rescale_down_form(w: int, m: int, k: int)
    requires
        1 <= m,
        1 <= k,
        0 <= w <= k * m,
    ensures
        rescale(w, k * m, m) == (2 * w + k) / (2 * k),
{
    let q = (2 * w + k) / (2 * k);
    let r = (2 * w + k) % (2 * k);
    lemma_fundamental_div_mod(2 * w + k, 2 * k);
    assert(2 * w * m + k * m == q * (2 * (k * m)) + m * r) by (nonlinear_arith)
        requires
            2 * w + k == (2 * k) * q + r,
    ;
    assert(0 <= m * r < 2 * (k * m)) by (nonlinear_arith)
        requires
            1 <= m && 1 <= k && 0 <= r < 2 * k,
    ;
    lemma_fundamental_div_mod_converse(2 * w * m + k * m, 2 * (k * m), q, m * r);
}

/// Round-trip domain rescale, fine to coarse and back: the value returns to
/// within the rounding error of the coarser domain, half a coarse step
/// (`k / 2` fine units) in either direction.
pub proof fn lemma_rescale_round_trip_lossy(w: int, m: int, k: int)
    requires
        1 <= m,
        1 <= k,
        0 <= w <= k * m,
    ensures
        0 <= rescale(w, k * m, m) <= m,
        rescale(rescale(w, k * m, m), m, k * m) <= w + k / 2,
        w <= rescale(rescale(w, k * m, m), m, k * m) + k / 2,
{
    lemma_rescale_down_form(w, m, k);
    let down = (2 * w + k) / (2 * k);
    let r = (2 * w + k) % (2 * k);
    lemma_fundamental_div_mod(2 * w + k, 2 * k);
    assert(0 <= down <= m) by (nonlinear_arith)
        requires
            1 <= m && 1 <= k && 0 <= w <= k * m && 2 * w + k == (2 * k) * down + r && 0 <= r < 2
                * k,
    ;
    lemma_rescale_up_exact(down, m, k);
    assert(2 * (down * k - w) == k - r && 2 * (w - down * k) == r - k) by (nonlinear_arith)
        requires
            2 * w + k == (2 * k) * down + r,
    ;
}

/// The normalized product of two values of `[0, m]`, computed with a widened
/// intermediate so the multiplication cannot overflow.
fn nmul_exec(a: u64, b: u64, m: u64) -> (r: u64)
    requires
        1 <= m <= 0xffff_ffffu64,
        a <= m,
        b <= m,
    ensures
        r == norm_mul(a as int, b as int, m as int),
        r <= m,
{
    proof {
        let ai = a as int;
        let bi = b as int;
        let mi = m as int;
        assert(ai * bi <= mi * mi && mi * mi <= 0xffff_ffff * 0xffff_ffff && ai * bi < mi * (mi
            + 1)) by (nonlinear_arith)
            requires
                0 <= ai <= mi,
                0 <= bi <= mi,
                1 <= mi <= 0xffff_ffff,
        ;
        lemma_multiply_divide_lt(ai * bi, mi, mi + 1);
    }
    a * b / m
}

/// Rescales `v` from `[0, from_max]` into `[0, to_max]`, rounding to nearest,
/// with a widened intermediate so nothing overflows.
fn rescale_exec(v: u64, from_max: u64, to_max: u64) -> (r: u64)
    requires
        1 <= from_max <= 0xffff_ffffu64,
        1 <= to_max <= 0xffff_ffffu64,
        v <= from_max,
    ensures
        r == rescale(v as int, from_max as int, to_max as int),
        r <= to_max,
{
    proof {
        let vi = v as int;
        let fm = from_max as int;
        let tm = to_max as int;
        assert(0 <= 2 * vi * tm <= 2 * 0xffff_ffff * 0xffff_ffff) by (nonlinear_arith)
            requires
                0 <= vi <= 0xffff_ffff,
                0 <= tm <= 0xffff_ffff,
        ;
        // num <= 2 * from_max * to_max + from_max < (2 * from_max) * (to_max + 1)
        assert(2 * vi * tm + fm < (2 * fm) * (tm + 1)) by (nonlinear_arith)
            requires
                1 <= fm,
                1 <= tm,
                0 <= vi <= fm,
        ;
        lemma_multiply_divide_lt(2 * vi * tm + fm, 2 * fm, tm + 1);
    }
    let num: u128 = 2 * (v as u128) * (to_max as u128) + (from_max as u128);
    let den: u128 = 2 * (from_max as u128);
    let wide: u128 = num / den;
    assert(wide <= to_max);
    wide as u64
}

impl Channel for u8 {
    open spec fn cmax() -> int {
        0xff
    }

    open spec fn cval(self) -> int {
        self as int
    }

    proof fn lemma_cmax_positive() {
    }

    proof fn lemma_cval_bounded(self) {
    }

    fn channel_max() -> (r: Self) {
        0xffu8
    }

    fn channel_zero() -> (r: Self) {
        0u8
    }

    fn is_zero(&self) -> (r: bool) {
        *self == 0u8
    }

    fn clamp_channel(self, lo: Self, hi: Self) -> (r: Self) {
        if self < lo {
            lo
        } else if self > hi {
            hi
        } else {
            self
        }
    }

    fn invert_channel(self) -> (r: Self) {
        0xffu8 - self
    }

    fn normalized_mul(self, other: Self) -> (r: Self) {
        nmul_exec(self as u64, other as u64, 0xffu64) as u8
    }

    fn to_raw(self) -> (r: u64) {
        self as u64
    }

    fn from_raw(raw: u64) -> (r: Self) {
        raw as u8
    }

    fn max_raw() -> (r: u64) {
        0xffu64
    }

    fn from_ratio(num: u64, den: u64) -> (r: Self) {
        rescale_exec(num, den, 0xffu64) as u8
    }

}

impl Channel for u16 {
    open spec fn cmax() -> int {
        0xffff
    }

    open spec fn cval(self) -> int {
        self as int
    }

    proof fn lemma_cmax_positive() {
    }

    proof fn lemma_cval_bounded(self) {
    }

    fn channel_max() -> (r: Self) {
        0xffffu16
    }

    fn channel_zero() -> (r: Self) {
        0u16
    }

    fn is_zero(&self) -> (r: bool) {
        *self == 0u16
    }

    fn clamp_channel(self, lo: Self, hi: Self) -> (r: Self) {
        if self < lo {
            lo
        } else if self > hi {
            hi
        } else {
            self
        }
    }

    fn invert_channel(self) -> (r: Self) {
        0xffffu16 - self
    }

    fn normalized_mul(self, other: Self) -> (r: Self) {
        nmul_exec(self as u64, other as u64, 0xffffu64) as u16
    }

    fn to_raw(self) -> (r: u64) {
        self as u64
    }

    fn from_raw(raw: u64) -> (r: Self) {
        raw as u16
    }

    fn max_raw() -> (r: u64) {
        0xffffu64
    }

    fn from_ratio(num: u64, den: u64) -> (r: Self) {
        rescale_exec(num, den, 0xffffu64) as u16
    }

}

impl Channel for u32 {
    open spec fn cmax() -> int {
        0xffff_ffff
    }

    open spec fn cval(self) -> int {
        self as int
    }

    proof fn lemma_cmax_positive() {
    }

    proof fn lemma_cval_bounded(self) {
    }

    fn channel_max() -> (r: Self) {
        0xffff_ffffu32
    }

    fn channel_zero() -> (r: Self) {
        0u32
    }

    fn is_zero(&self) -> (r: bool) {
        *self == 0u32
    }

    fn clamp_channel(self, lo: Self, hi: Self) -> (r: Self) {
        if self < lo {
            lo
        } else if self > hi {
            hi
        } else {
            self
        }
    }

    fn invert_channel(self) -> (r: Self) {
        0xffff_ffffu32 - self
    }

    fn normalized_mul(self, other: Self) -> (r: Self) {
        nmul_exec(self as u64, other as u64, 0xffff_ffffu64) as u32
    }

    fn to_raw(self) -> (r: u64) {
        self as u64
    }

    fn from_raw(raw: u64) -> (r: Self) {
        raw as u32
    }

    fn max_raw() -> (r: u64) {
        0xffff_ffffu64
    }

    fn from_ratio(num: u64, den: u64) -> (r: Self) {
        rescale_exec(num, den, 0xffff_ffffu64) as u32
    }

}

} // verus!
