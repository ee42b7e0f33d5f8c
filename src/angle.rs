//! Hue angles: a cyclic channel whose full range is one turn.
use vstd::prelude::*;

use crate::channel::{conv_int, lemma_conv_round_trip, lemma_div_facts, Channel};
use crate::frac::FRAC_ONE;

verus! {

/// The number of steps of `AngleDeg` in a full turn (360 degrees).
pub const TURN_MILLIDEG: i32 = 360_000;

/// An angle in thousandths of a degree: `AngleDeg(90_000)` is a right angle.
///
/// As a channel its maximum is one full turn. Any angle can be held; `to_range` wraps it
/// into `[0, 360)` degrees by adding or removing whole turns.
#[derive(Clone, Copy, Debug, PartialEq, Eq, PartialOrd)]
pub struct AngleDeg(pub i32);

/// `x` reduced into `[0, TURN_MILLIDEG)` by whole turns.
pub open spec fn wrap_turn(x: int) -> int {
    x % (TURN_MILLIDEG as int)
}

impl AngleDeg {
    /// An angle of `deg` whole degrees.
    pub fn from_degrees(deg: i16) -> (r: AngleDeg)
        ensures
            r.0 == deg as int * 1000,
    {
        AngleDeg(deg as i32 * 1000)
    }
}

impl Channel for AngleDeg {
    open spec fn val(&self) -> int {
        self.0 as int
    }

    open spec fn max_val() -> int {
        TURN_MILLIDEG as int
    }

    open spec fn integer() -> bool {
        false
    }

    open spec fn to_range_spec(x: int) -> int {
        wrap_turn(x)
    }

    proof fn lemma_range(x: int) {
        let m = TURN_MILLIDEG as int;
        vstd::arithmetic::div_mod::lemma_mod_bound(x, m);
        vstd::arithmetic::div_mod::lemma_mod_bound(x % m, m);
        vstd::arithmetic::div_mod::lemma_small_mod((x % m) as nat, m as nat);
        if 0 <= x < m {
            vstd::arithmetic::div_mod::lemma_small_mod(x as nat, m as nat);
        }
    }

    fn is_integer() -> (r: bool) {
        false
    }

    fn ch_max() -> (r: AngleDeg) {
        AngleDeg(TURN_MILLIDEG)
    }

    fn ch_mid() -> (r: AngleDeg) {
        AngleDeg(TURN_MILLIDEG / 2)
    }

    fn ch_zero() -> (r: AngleDeg) {
        AngleDeg(0)
    }

    fn is_zero(&self) -> (r: bool) {
        self.0 == 0
    }

    fn from_u64(x: u64) -> (r: AngleDeg) {
        AngleDeg(x as i32)
    }

    fn to_u64(&self) -> (r: u64) {
        self.0 as u64
    }

    fn in_range(&self) -> (r: bool) {
        0 <= self.0 && self.0 <= TURN_MILLIDEG
    }

    fn to_range(self) -> (r: AngleDeg) {
        let m = TURN_MILLIDEG as i64;
        let x = self.0 as i64;
        if x >= 0 {
            AngleDeg((x % m) as i32)
        } else {
            let k = (-x) / m;
            let rest = (-x) % m;
            proof {
                vstd::arithmetic::div_mod::lemma_fundamental_div_mod(-x, m as int);
                vstd::arithmetic::div_mod::lemma_mod_pos_bound(-x, m as int);
                if rest == 0 {
                    vstd::arithmetic::div_mod::lemma_fundamental_div_mod_converse(
                        x as int, m as int, -k, 0);
                } else {
                    vstd::arithmetic::div_mod::lemma_fundamental_div_mod_converse(
                        x as int, m as int, -k - 1, m - rest);
                }
            }
            if rest == 0 {
                AngleDeg(0)
            } else {
                AngleDeg((m - rest) as i32)
            }
        }
    }

    fn clamp(self) -> (r: AngleDeg) {
        if self.0 > TURN_MILLIDEG {
            AngleDeg(TURN_MILLIDEG)
        } else if self.0 < 0 {
            AngleDeg(0)
        } else {
            self
        }
    }
}

/// The number of steps of `AngleRad` in a full turn: two pi radians in millionths of a
/// radian, rounded to the nearest step.
pub const TURN_MICRORAD: i32 = 6_283_185;

/// An angle in millionths of a radian.
///
/// As a channel its maximum is one full turn, `TURN_MICRORAD`. Any angle can be held;
/// `to_range` wraps it into `[0, TURN_MICRORAD)` by adding or removing whole turns.
#[derive(Clone, Copy, Debug, PartialEq, Eq, PartialOrd)]
pub struct AngleRad(pub i32);

/// `x` reduced into `[0, TURN_MICRORAD)` by whole turns.
pub open spec fn wrap_turn_rad(x: int) -> int {
    x % (TURN_MICRORAD as int)
}

impl Channel for AngleRad {
    open spec fn val(&self) -> int {
        self.0 as int
    }

    open spec fn max_val() -> int {
        TURN_MICRORAD as int
    }

    open spec fn integer() -> bool {
        false
    }

    open spec fn to_range_spec(x: int) -> int {
        wrap_turn_rad(x)
    }

    proof fn lemma_range(x: int) {
        let m = TURN_MICRORAD as int;
        vstd::arithmetic::div_mod::lemma_mod_bound(x, m);
        vstd::arithmetic::div_mod::lemma_mod_bound(x % m, m);
        vstd::arithmetic::div_mod::lemma_small_mod((x % m) as nat, m as nat);
        if 0 <= x < m {
            vstd::arithmetic::div_mod::lemma_small_mod(x as nat, m as nat);
        }
    }

    fn is_integer() -> (r: bool) {
        false
    }

    fn ch_max() -> (r: AngleRad) {
        AngleRad(TURN_MICRORAD)
    }

    fn ch_mid() -> (r: AngleRad) {
        AngleRad(TURN_MICRORAD / 2)
    }

    fn ch_zero() -> (r: AngleRad) {
        AngleRad(0)
    }

    fn is_zero(&self) -> (r: bool) {
        self.0 == 0
    }

    fn from_u64(x: u64) -> (r: AngleRad) {
        AngleRad(x as i32)
    }

    fn to_u64(&self) -> (r: u64) {
        self.0 as u64
    }

    fn in_range(&self) -> (r: bool) {
        0 <= self.0 && self.0 <= TURN_MICRORAD
    }

    fn to_range(self) -> (r: AngleRad) {
        let m = TURN_MICRORAD as i64;
        let x = self.0 as i64;
        if x >= 0 {
            AngleRad((x % m) as i32)
        } else {
            let k = (-x) / m;
            let rest = (-x) % m;
            proof {
                vstd::arithmetic::div_mod::lemma_fundamental_div_mod(-x, m as int);
                vstd::arithmetic::div_mod::lemma_mod_pos_bound(-x, m as int);
                if rest == 0 {
                    vstd::arithmetic::div_mod::lemma_fundamental_div_mod_converse(
                        x as int, m as int, -k, 0);
                } else {
                    vstd::arithmetic::div_mod::lemma_fundamental_div_mod_converse(
                        x as int, m as int, -k - 1, m - rest);
                }
            }
            if rest == 0 {
                AngleRad(0)
            } else {
                AngleRad((m - rest) as i32)
            }
        }
    }

    fn clamp(self) -> (r: AngleRad) {
        if self.0 > TURN_MICRORAD {
            AngleRad(TURN_MICRORAD)
        } else if self.0 < 0 {
            AngleRad(0)
        } else {
            self
        }
    }
}

/// A fraction `f` in `[0, 1)` converted to an angle is `f` of a full turn, that is
/// `f * 360` degrees, exactly wherever that is a whole number of thousandths of a degree.
pub proof fn lemma_fraction_to_degrees(x: int)
    requires
        0 <= x < FRAC_ONE,
        x % 25 == 0,
    ensures
        conv_int(x, FRAC_ONE as int, TURN_MILLIDEG as int) == x * 360 / 1000,
        x * 360 / 1000 == (x / 25) * 9,
{
    let q = x / 25;
    vstd::arithmetic::div_mod::lemma_fundamental_div_mod(x, 25);
    assert(x * 360 == (q * 9) * 1000);
    vstd::arithmetic::div_mod::lemma_div_multiples_vanish(q * 9, 1000);
    lemma_div_facts(2 * (x * 360000) + 1_000_000, 2_000_000);
    assert(2 * (x * 360000) + 1_000_000 == 2_000_000 * (q * 9) + 1_000_000);
}

/// A fraction converted to radians is that fraction of a full turn of `TURN_MICRORAD`
/// steps, rounded to the nearest step.
pub proof fn lemma_fraction_to_radians(x: int)
    requires
        0 <= x <= FRAC_ONE,
    ensures
        conv_int(x, FRAC_ONE as int, TURN_MICRORAD as int)
            == (2 * (x * TURN_MICRORAD) + FRAC_ONE) / (2 * FRAC_ONE),
{
}

/// Degrees survive a trip through radians: an angle in `[0, 360]` degrees converted to
/// radians and back is unchanged, since the radian steps are finer.
pub proof fn lemma_degrees_radians_round_trip(x: int)
    requires
        0 <= x <= TURN_MILLIDEG,
    ensures
        conv_int(
            conv_int(x, TURN_MILLIDEG as int, TURN_MICRORAD as int),
            TURN_MICRORAD as int,
            TURN_MILLIDEG as int,
        ) == x,
{
    lemma_conv_round_trip::<AngleDeg, AngleRad>(x);
}

} // verus!
