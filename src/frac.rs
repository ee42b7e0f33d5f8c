//! A linear channel that stands for a real fraction of the full range, in millionths.
use vstd::prelude::*;

use crate::channel::{clamp_int, Channel};

verus! {

/// The number of steps of `Frac` in the whole range: `Frac(FRAC_ONE)` stands for `1.0`.
pub const FRAC_ONE: i32 = 1_000_000;

/// A fraction of a channel's full range, in millionths: `Frac(500_000)` is one half.
///
/// Values outside `[0, FRAC_ONE]` can be held (a negative or overdriven component) and are
/// brought into range by clamping.
#[derive(Clone, Copy, Debug, PartialEq, Eq, PartialOrd)]
pub struct Frac(pub i32);

impl Channel for Frac {
    open spec fn val(&self) -> int {
        self.0 as int
    }

    open spec fn max_val() -> int {
        FRAC_ONE as int
    }

    open spec fn integer() -> bool {
        false
    }

    open spec fn to_range_spec(x: int) -> int {
        clamp_int(x, FRAC_ONE as int)
    }

    proof fn lemma_range(x: int) {
    }

    fn is_integer() -> (r: bool) {
        false
    }

    fn ch_max() -> (r: Frac) {
        Frac(FRAC_ONE)
    }

    fn ch_mid() -> (r: Frac) {
        Frac(FRAC_ONE / 2)
    }

    fn ch_zero() -> (r: Frac) {
        Frac(0)
    }

    fn is_zero(&self) -> (r: bool) {
        self.0 == 0
    }

    fn from_u64(x: u64) -> (r: Frac) {
        Frac(x as i32)
    }

    fn to_u64(&self) -> (r: u64) {
        self.0 as u64
    }

    fn in_range(&self) -> (r: bool) {
        0 <= self.0 && self.0 <= FRAC_ONE
    }

    fn to_range(self) -> (r: Frac) {
        self.clamp()
    }

    fn clamp(self) -> (r: Frac) {
        if self.0 > FRAC_ONE {
            Frac(FRAC_ONE)
        } else if self.0 < 0 {
            Frac(0)
        } else {
            self
        }
    }
}

} // verus!
