//! The RGB collaborator type: three channel values, with construction and
//! the linear mixing operation that blending in HSV space goes through.

use vstd::prelude::*;
use vstd::arithmetic::div_mod::lemma_multiply_divide_lt;
use crate::channel::Channel;

verus! {

/// Linear interpolation from `a` toward `b` by the fraction `t / m`, in the
/// channel domain `[0, m]`: `(a * (m - t) + b * t) / m`, truncating.
pub open spec fn lerp(a: int, b: int, t: int, m: int) -> int {
    (a * (m - t) + b * t) / m
}

/// A color as three channel values, red, green and blue.
#[derive(Clone, Copy, PartialEq, Debug)]
pub struct Rgb<T: Channel> {
    pub r: T,
    pub g: T,
    pub b: T,
}

/// The interpolation of one channel, with a widened intermediate so nothing
/// overflows.
fn lerp_exec(a: u64, b: u64, t: u64, m: u64) -> (r: u64)
    requires
        1 <= m <= 0xffff_ffffu64,
        a <= m,
        b <= m,
        t <= m,
    ensures
        r == lerp(a as int, b as int, t as int, m as int),
        r <= m,
{
    proof {
        let ai = a as int;
        let bi = b as int;
        let ti = t as int;
        let mi = m as int;
        assert(0 <= ai * (mi - ti) + bi * ti && ai * (mi - ti) + bi * ti < mi * (mi + 1) && ai * (mi
            - ti) + bi * ti <= 0xffff_ffff * (0xffff_ffff + 0xffff_ffff)) by (nonlinear_arith)
            requires
                0 <= ai <= mi,
                0 <= bi <= mi,
                0 <= ti <= mi,
                1 <= mi <= 0xffff_ffff,
        ;
        lemma_multiply_divide_lt(ai * (mi - ti) + bi * ti, mi, mi + 1);
    }
    let num: u128 = (a as u128) * ((m - t) as u128) + (b as u128) * (t as u128);
    let wide: u128 = num / (m as u128);
    wide as u64
}

impl<T: Channel> Rgb<T> {
    /// Constructs a color from its three channels, unchanged.
    pub fn new(r: T, g: T, b: T) -> (c: Rgb<T>)
        ensures
            c.r == r,
            c.g == g,
            c.b == b,
    {
        Rgb { r, g, b }
    }

    /// Mixes this color toward `other`: each channel is linearly
    /// interpolated by the fraction `value / max`, so `value == 0` keeps
    /// this color and `value == max` gives `other`.
    pub fn mix(self, other: Rgb<T>, value: T) -> (c: Rgb<T>)
        ensures
            c.r.cval() == lerp(self.r.cval(), other.r.cval(), value.cval(), T::cmax()),
            c.g.cval() == lerp(self.g.cval(), other.g.cval(), value.cval(), T::cmax()),
            c.b.cval() == lerp(self.b.cval(), other.b.cval(), value.cval(), T::cmax()),
    {
        proof {
            T::lemma_cmax_positive();
            self.r.lemma_cval_bounded();
            self.g.lemma_cval_bounded();
            self.b.lemma_cval_bounded();
            other.r.lemma_cval_bounded();
            other.g.lemma_cval_bounded();
            other.b.lemma_cval_bounded();
            value.lemma_cval_bounded();
        }
        let m = T::max_raw();
        let t = value.to_raw();
        Rgb {
            r: T::from_raw(lerp_exec(self.r.to_raw(), other.r.to_raw(), t, m)),
            g: T::from_raw(lerp_exec(self.g.to_raw(), other.g.to_raw(), t, m)),
            b: T::from_raw(lerp_exec(self.b.to_raw(), other.b.to_raw(), t, m)),
        }
    }
}

} // verus!
