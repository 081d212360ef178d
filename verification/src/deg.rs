//! Angles in degrees. A hue is semantically cyclic modulo 360, but a `Deg`
//! value is wrapped into the canonical range `[0, 360)` only on demand, never
//! silently: some callers accumulate unwrapped angle deltas.

use vstd::prelude::*;
use vstd::arithmetic::div_mod::lemma_mod_decreases;
use crate::channel::Channel;

verus! {

/// The canonical representative of an angle: its value modulo 360, in
/// `[0, 360)`.
pub open spec fn wrap_deg(h: int) -> int {
    h % 360
}

/// An angle in degrees, carried by a channel's numeric type.
#[derive(Clone, Copy, PartialEq, Debug)]
pub struct Deg<T>(pub T);

impl<T: Channel> Deg<T> {
    /// The numeric value of the angle, as a mathematical integer.
    pub open spec fn dval(self) -> int {
        self.0.cval()
    }

    /// The numeric value of the angle.
    pub fn value(self) -> (r: T)
        ensures
            r == self.0,
    {
        self.0
    }

    /// Wraps the angle into the canonical range `[0, 360)`. This is the one
    /// place an angle is normalized; construction and arithmetic leave it
    /// alone.
    pub fn wrap(self) -> (r: Deg<T>)
        ensures
            r.dval() == wrap_deg(self.dval()),
    {
        proof {
            self.0.lemma_cval_bounded();
            lemma_mod_decreases(self.0.cval() as nat, 360nat);
        }
        let raw = self.0.to_raw();
        Deg(T::from_raw(raw % 360))
    }
}

} // verus!
