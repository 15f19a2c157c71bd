//! A terminal start-menu runtime: a procedurally animated ASCII banner with
//! drift-free pause/resume timing, a wrap-around menu cursor, a three-state
//! application state machine, and the frame scheduler's polling decisions.
//!
//! Progress through an animation cycle is kept as an exact rational number
//! of milliseconds, so pausing, resuming and looping are free of rounding
//! and of cumulative timing error.

pub mod anim;
pub mod art;
pub mod backend;
pub mod keys;
pub mod menu;
pub mod procedural;
pub mod runtime;
pub mod text;

use vstd::prelude::*;

verus! {

/// How far through one animation cycle an instant falls, as the exact
/// rational `num / den` in `[0, 1]`; `num == den` means "finished, in dwell".
#[derive(Clone, Copy, Debug, PartialEq, Eq, Structural)]
pub struct Progress {
    pub num: u64,
    pub den: u64,
}

impl Progress {
    /// A progress value is meaningful when its denominator is positive and
    /// it does not exceed one.
    pub open spec fn wf(self) -> bool {
        0 < self.den && self.num <= self.den
    }

    /// True exactly for "finished, in dwell" (progress 1.0).
    pub open spec fn spec_is_complete(&self) -> bool {
        self.num == self.den
    }

    #[verifier::when_used_as_spec(spec_is_complete)]
    pub fn is_complete(&self) -> (r: bool)
        ensures
            r == self.spec_is_complete(),
    {
        self.num == self.den
    }
}

/// Applies `action` only under `condition`, passing the value through
/// untouched otherwise.
pub trait When: Sized {
    fn when<F: FnOnce(Self) -> Self>(self, condition: bool, action: F) -> (r: Self)
        requires
            condition ==> action.requires((self,)),
        ensures
            condition ==> action.ensures((self,), r),
            !condition ==> r == self,
    ;
}

impl<T> When for T {
    fn when<F: FnOnce(T) -> T>(self, condition: bool, action: F) -> (r: T) {
        if condition {
            action(self)
        } else {
            self
        }
    }
}

} // verus!

