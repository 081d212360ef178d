//! The HSV color type: a hue angle, a saturation and a value (brightness),
//! with conversion to RGB by the six-sector hexagon mapping, clamping,
//! inversion and mixing.

use vstd::prelude::*;
use vstd::arithmetic::div_mod::{
    lemma_add_mod_noop_right, lemma_div_is_ordered, lemma_div_multiples_vanish,
    lemma_mod_add_multiples_vanish, lemma_multiply_divide_le,
};
use vstd::arithmetic::mul::lemma_mul_inequality;
use vstd::pervasive::unreached;
use crate::channel::{clamp_int, lemma_rescale_zero, norm_mul, rescale, to_channel, Channel};
use crate::deg::{wrap_deg, Deg};
use crate::rgb::Rgb;

verus! {

/// The failure of a capability that is declared but not implemented: the
/// call reports it as a typed error rather than returning a
/// plausible-looking wrong value.
#[derive(Clone, Copy, PartialEq, Eq, Structural, Debug)]
pub enum ColorError {
    Unimplemented,
}

/// The hue sector: the wrapped hue divided by 60 degrees, one of 0 to 5.
pub open spec fn sector_of(h: int) -> int {
    wrap_deg(h) / 60
}

/// How far into its sector the hue lies, scaled into the channel domain
/// `[0, m]`: the remainder of the hue in its sector, as a fraction of 60
/// degrees (truncating).
pub open spec fn sector_frac(h: int, m: int) -> int {
    (wrap_deg(h) % 60) * m / 60
}

/// The darkest intermediate channel: the value dimmed by the full
/// saturation, `v * (m - s) / m`. No hue contribution.
pub open spec fn rgb_p(s: int, v: int, m: int) -> int {
    norm_mul(m - s, v, m)
}

/// The descending edge of the sector: the value dimmed by the part of the
/// saturation the sector fraction has reached, `v * (m - s * f / m) / m`.
pub open spec fn rgb_q(s: int, v: int, f: int, m: int) -> int {
    norm_mul(m - norm_mul(s, f, m), v, m)
}

/// The ascending edge of the sector: the value dimmed by the part of the
/// saturation still to come, `v * (m - s * (m - f) / m) / m`.
pub open spec fn rgb_t(s: int, v: int, f: int, m: int) -> int {
    norm_mul(m - norm_mul(s, m - f, m), v, m)
}

/// The canonical HSV hexagon mapping: which of the brightest channel `v`,
/// the two edges and the darkest channel land in red, green and blue, by
/// sector.
pub open spec fn sector_triple(sector: int, f: int, s: int, v: int, m: int) -> (int, int, int) {
    let p = rgb_p(s, v, m);
    let q = rgb_q(s, v, f, m);
    let t = rgb_t(s, v, f, m);
    if sector == 0 {
        (v, t, p)
    } else if sector == 1 {
        (q, v, p)
    } else if sector == 2 {
        (p, v, t)
    } else if sector == 3 {
        (p, q, v)
    } else if sector == 4 {
        (t, p, v)
    } else {
        (v, p, q)
    }
}

/// What an HSV color converts to, still in its own channel domain `[0, m]`:
/// black when the value is zero, an achromatic gray when the saturation is
/// zero, and otherwise the hexagon mapping of its hue sector.
pub open spec fn hsv_triple(h: int, s: int, v: int, m: int) -> (int, int, int) {
    if v == 0 {
        (0, 0, 0)
    } else if s == 0 {
        (v, v, v)
    } else {
        sector_triple(sector_of(h), sector_frac(h, m), s, v, m)
    }
}

/// A color as hue, saturation and value. Saturation and value lie in the
/// channel domain; the hue is any angle, wrapped only on demand.
#[derive(Clone, Copy, PartialEq, Debug)]
pub struct Hsv<T: Channel> {
    pub h: Deg<T>,
    pub s: T,
    pub v: T,
}

impl<T: Channel> Hsv<T> {
    /// Plain construction; no normalization is performed.
    pub fn new(h: Deg<T>, s: T, v: T) -> (c: Hsv<T>)
        ensures
            c.h == h,
            c.s == s,
            c.v == v,
    {
        Hsv { h, s, v }
    }

    /// Clamps saturation and value to the range `[lo, hi]`. The hue passes
    /// through unchanged; whether it too should be clamped is a documented
    /// open question, deliberately left unresolved.
    pub fn clamp_s(self, lo: T, hi: T) -> (c: Hsv<T>)
        requires
            lo.cval() <= hi.cval(),
        ensures
            c.h == self.h,
            c.s.cval() == clamp_int(self.s.cval(), lo.cval(), hi.cval()),
            c.v.cval() == clamp_int(self.v.cval(), lo.cval(), hi.cval()),
    {
        Hsv::new(self.h, self.s.clamp_channel(lo, hi), self.v.clamp_channel(lo, hi))
    }

    /// Clamps saturation and value component-wise between `lo` and `hi`.
    /// The hue passes through unchanged, as in `clamp_s`.
    pub fn clamp_c(self, lo: Hsv<T>, hi: Hsv<T>) -> (c: Hsv<T>)
        requires
            lo.s.cval() <= hi.s.cval(),
            lo.v.cval() <= hi.v.cval(),
        ensures
            c.h == self.h,
            c.s.cval() == clamp_int(self.s.cval(), lo.s.cval(), hi.s.cval()),
            c.v.cval() == clamp_int(self.v.cval(), lo.v.cval(), hi.v.cval()),
    {
        Hsv::new(self.h, self.s.clamp_channel(lo.s, hi.s), self.v.clamp_channel(lo.v, hi.v))
    }

    /// Inverts the color: the hue is rotated by a half turn and wrapped
    /// into its canonical range, and saturation and value are each
    /// complemented relative to the domain maximum. The wrapped hue must be
    /// representable in the channel type (an 8-bit hue cannot carry every
    /// angle of `[0, 360)`).
    pub fn inverse(self) -> (c: Hsv<T>)
        requires
            wrap_deg(self.h.dval() + 180) <= T::cmax(),
        ensures
            c.h.dval() == wrap_deg(self.h.dval() + 180),
            c.s.cval() == T::cmax() - self.s.cval(),
            c.v.cval() == T::cmax() - self.v.cval(),
    {
        proof {
            self.h.0.lemma_cval_bounded();
            T::lemma_cmax_positive();
        }
        let rotated = self.h.0.to_raw() + 180;
        Hsv::new(
            Deg(T::from_raw(rotated % 360)),
            self.s.invert_channel(),
            self.v.invert_channel(),
        )
    }

    /// Converts the color to RGB in the channel domain `U`, by the hexagon
    /// mapping of `hsv_triple` with each channel rescaled into `U`: black
    /// when the value is zero, gray when the saturation is zero, and
    /// otherwise the sector blend of the wrapped hue.
    pub fn to_rgb<U: Channel>(&self) -> (c: Rgb<U>)
        ensures
            ({
                let t3 = hsv_triple(self.h.dval(), self.s.cval(), self.v.cval(), T::cmax());
                &&& c.r.cval() == rescale(t3.0, T::cmax(), U::cmax())
                &&& c.g.cval() == rescale(t3.1, T::cmax(), U::cmax())
                &&& c.b.cval() == rescale(t3.2, T::cmax(), U::cmax())
            }),
    {
        proof {
            T::lemma_cmax_positive();
            U::lemma_cmax_positive();
            self.h.0.lemma_cval_bounded();
            self.s.lemma_cval_bounded();
            self.v.lemma_cval_bounded();
        }
        if self.v.is_zero() {
            proof {
                lemma_rescale_zero(T::cmax(), U::cmax());
            }
            let z = U::channel_zero();
            Rgb::new(z, z, z)
        } else if self.s.is_zero() {
            let gray: U = to_channel(self.v);
            Rgb::new(gray, gray, gray)
        } else {
            let hue = self.h.0.to_raw() % 360;
            let sector = hue / 60;
            let rem = hue % 60;
            let m = T::max_raw();
            proof {
                lemma_div_is_ordered(hue as int, 359, 60);
                lemma_mul_inequality(rem as int, 60, m as int);
                lemma_multiply_divide_le(rem as int * m as int, 60, m as int);
                vstd::arithmetic::mul::lemma_mul_upper_bound(rem as int, 59, m as int, 0xffff_ffff);
            }
            let frac: T = T::from_raw(rem * m / 60);
            let pv: U = to_channel(self.s.invert_channel().normalized_mul(self.v));
            let qv: U = to_channel(
                self.s.normalized_mul(frac).invert_channel().normalized_mul(self.v),
            );
            let tv: U = to_channel(
                self.s.normalized_mul(frac.invert_channel()).invert_channel().normalized_mul(
                    self.v,
                ),
            );
            let b: U = to_channel(self.v);
            match sector {
                0 => Rgb::new(b, tv, pv),
                1 => Rgb::new(qv, b, pv),
                2 => Rgb::new(pv, b, tv),
                3 => Rgb::new(pv, qv, b),
                4 => Rgb::new(tv, pv, b),
                5 => Rgb::new(b, pv, qv),
                // A wrapped hue lies below 360 degrees, so its sector is at
                // most 5: any other value is proved impossible.
                _ => unreached(),
            }
        }
    }

    /// Mixes two colors by linear interpolation in RGB space: both operands
    /// are converted to RGB and blended there by `value / max`, because a
    /// straight line in hue/saturation/value would blend visibly wrong
    /// across the hue circle. Converting the blend back from RGB is a
    /// declared but unimplemented capability of this library, so the blend
    /// is computed and that conversion's typed error is what comes back.
    pub fn mix(self, other: Hsv<T>, value: T) -> (c: Result<Hsv<T>, ColorError>)
        ensures
            c == Err::<Hsv<T>, ColorError>(ColorError::Unimplemented),
    {
        self.to_rgb::<T>().mix(other.to_rgb::<T>(), value).to_hsv::<T>()
    }
}

/// The capability of producing an `Hsv` value in a caller-chosen channel
/// domain.
pub trait ToHsv: Sized + Copy {
    /// The hue angle, saturation, value and source domain maximum that this
    /// value describes, or `None` where the conversion is a declared but
    /// unimplemented capability.
    spec fn hsv_view(self) -> Option<(int, int, int, int)>;

    /// Produces the `Hsv` value in the channel domain `U`: the hue is
    /// recast numerically, without rewrapping (so it must be representable
    /// in `U`), and saturation and value are rescaled by the ratio of the
    /// domain maxima. Where the conversion is unimplemented, the typed
    /// error is returned instead of a made-up color.
    fn to_hsv<U: Channel>(&self) -> (r: Result<Hsv<U>, ColorError>)
        requires
            (match self.hsv_view() {
                Some(t) => t.0 <= U::cmax(),
                None => true,
            }),
        ensures
            (match self.hsv_view() {
                Some(t) => r matches Ok(c) && c.h.dval() == t.0 && c.s.cval() == rescale(
                    t.1,
                    t.3,
                    U::cmax(),
                ) && c.v.cval() == rescale(t.2, t.3, U::cmax()),
                None => r == Err::<Hsv<U>, ColorError>(ColorError::Unimplemented),
            }),
    ;
}

impl<T: Channel> ToHsv for Hsv<T> {
    open spec fn hsv_view(self) -> Option<(int, int, int, int)> {
        Some((self.h.dval(), self.s.cval(), self.v.cval(), T::cmax()))
    }

    fn to_hsv<U: Channel>(&self) -> (r: Result<Hsv<U>, ColorError>) {
        proof {
            self.h.0.lemma_cval_bounded();
        }
        Ok(
            Hsv::new(
                Deg(U::from_raw(self.h.0.to_raw())),
                to_channel(self.s),
                to_channel(self.v),
            ),
        )
    }
}

impl<T: Channel> ToHsv for Rgb<T> {
    /// Constructing an HSV color from RGB is declared but not implemented.
    open spec fn hsv_view(self) -> Option<(int, int, int, int)> {
        None
    }

    fn to_hsv<U: Channel>(&self) -> (r: Result<Hsv<U>, ColorError>) {
        Err(ColorError::Unimplemented)
    }
}

impl ToHsv for u32 {
    /// Constructing an HSV color from a packed 32-bit integer is declared
    /// but not implemented.
    open spec fn hsv_view(self) -> Option<(int, int, int, int)> {
        None
    }

    fn to_hsv<U: Channel>(&self) -> (r: Result<Hsv<U>, ColorError>) {
        Err(ColorError::Unimplemented)
    }
}

impl ToHsv for u64 {
    /// Constructing an HSV color from a packed 64-bit integer is declared
    /// but not implemented.
    open spec fn hsv_view(self) -> Option<(int, int, int, int)> {
        None
    }

    fn to_hsv<U: Channel>(&self) -> (r: Result<Hsv<U>, ColorError>) {
        Err(ColorError::Unimplemented)
    }
}

/// Zero-value law: whatever the hue and the saturation, a color with no
/// brightness converts to pure black, `(0, 0, 0)`, in every output domain.
pub proof fn lemma_zero_value_black(h: int, s: int, m: int, um: int)
    requires
        1 <= m,
        1 <= um,
    ensures
        hsv_triple(h, s, 0, m) == (0int, 0int, 0int),
        rescale(0, m, um) == 0,
{
    lemma_rescale_zero(m, um);
}

/// Gray law: whatever the hue, a color with no saturation converts to the
/// achromatic gray whose three channels all carry the value itself (each
/// then rescaled to the output domain).
pub proof fn lemma_zero_saturation_gray(h: int, v: int, m: int)
    ensures
        hsv_triple(h, 0, v, m) == (v, v, v),
{
}

/// Inverse involution law: inverting twice returns to the original color.
/// Saturation and value come back exactly, by complement symmetry; the hue
/// comes back to the original modulo 360.
pub proof fn lemma_inverse_involution(h: int, s: int, m: int)
    ensures
        wrap_deg(wrap_deg(h + 180) + 180) == wrap_deg(h),
        m - (m - s) == s,
{
    lemma_add_mod_noop_right(wrap_deg(h + 180), 180, 360);
    lemma_add_mod_noop_right(h + 180, 180, 360);
    lemma_mod_add_multiples_vanish(h, 360);
}

/// Sector boundary continuity law: at every sector boundary the hexagon
/// mapping is continuous. The triple of a sector at the far end of its
/// fraction range (`f == m`, the algebraic limit of hue approaching the
/// next multiple of 60 degrees) equals the triple of the following sector
/// at `f == 0`, where the next multiple of 60 itself lands; after sector 5
/// comes sector 0, hue 360 being hue 0.
pub proof fn lemma_sector_continuity(sector: int, s: int, v: int, m: int)
    requires
        1 <= m,
        0 <= s <= m,
        0 <= v <= m,
        0 <= sector < 6,
    ensures
        sector_triple(sector, m, s, v, m) == sector_triple(
            if sector == 5 {
                0int
            } else {
                sector + 1
            },
            0,
            s,
            v,
            m,
        ),
{
    assert(s * m == m * s) by (nonlinear_arith);
    assert(v * m == m * v) by (nonlinear_arith);
    lemma_div_multiples_vanish(s, m);
    lemma_div_multiples_vanish(v, m);
    assert(norm_mul(s, m, m) == s);
    assert(norm_mul(m, v, m) == v);
    assert(norm_mul(s, 0, m) == 0);
    assert(rgb_q(s, v, m, m) == rgb_p(s, v, m));
    assert(rgb_t(s, v, m, m) == v);
    assert(rgb_q(s, v, 0, m) == v);
    assert(rgb_t(s, v, 0, m) == rgb_p(s, v, m));
}

} // verus!
