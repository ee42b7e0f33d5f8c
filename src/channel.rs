//! The channel abstraction: one color component with a range, landmarks and rescaling.
use vstd::prelude::*;

verus! {

/// `x` brought into `[0, max]`.
pub open spec fn clamp_int(x: int, max: int) -> int {
    if x > max {
        max
    } else if x < 0 {
        0
    } else {
        x
    }
}

/// `n / d` rounded to the nearest integer, halves rounded up (for `n >= 0`, `d > 0`).
pub open spec fn round_div(n: int, d: int) -> int {
    (2 * n + d) / (2 * d)
}

/// The value `x` of a channel whose maximum is `from_max`, rescaled to a channel whose
/// maximum is `to_max`: clamped, taken as a fraction of `from_max`, and rounded to the
/// nearest step of the target.
pub open spec fn conv_int(x: int, from_max: int, to_max: int) -> int {
    round_div(clamp_int(x, from_max) * to_max, from_max)
}

/// A color channel: a numeric type with a valid range `[ch_zero, ch_max]`.
///
/// `val` is the number a value stands for, in the channel's own steps; `max_val` is the
/// number that `ch_max` stands for.
pub trait Channel: Sized + Copy {
    spec fn val(&self) -> int;

    spec fn max_val() -> int;

    /// Whether the channel is an integer encoding (its steps are whole units).
    spec fn integer() -> bool;

    /// The number that `to_range` makes of `x`.
    spec fn to_range_spec(x: int) -> int;

    /// What every channel type guarantees of its range.
    proof fn lemma_range(x: int)
        ensures
            1 <= Self::max_val() <= u32::MAX,
            0 <= Self::to_range_spec(x) <= Self::max_val(),
            Self::to_range_spec(Self::to_range_spec(x)) == Self::to_range_spec(x),
            0 <= x < Self::max_val() ==> Self::to_range_spec(x) == x,
            Self::to_range_spec(0) == 0,
    ;

    /// Whether this is an integer channel; otherwise it stands for a real fraction.
    fn is_integer() -> (r: bool)
        ensures
            r == Self::integer(),
    ;

    /// The maximum value, inclusive.
    fn ch_max() -> (r: Self)
        ensures
            r.val() == Self::max_val(),
    ;

    /// Half of `ch_max`, rounded down.
    fn ch_mid() -> (r: Self)
        ensures
            r.val() == Self::max_val() / 2,
    ;

    /// The zero value.
    fn ch_zero() -> (r: Self)
        ensures
            r.val() == 0,
    ;

    /// Whether this value is zero.
    fn is_zero(&self) -> (r: bool)
        ensures
            r == (self.val() == 0),
    ;

    /// The value that stands for the number `x`.
    fn from_u64(x: u64) -> (r: Self)
        requires
            x <= Self::max_val(),
        ensures
            r.val() == x,
    ;

    /// The number this value stands for, where it lies in `[0, ch_max]`.
    fn to_u64(&self) -> (r: u64)
        requires
            0 <= self.val() <= Self::max_val(),
        ensures
            r == self.val(),
    ;

    /// Whether this value is inside the channel's allowed range `[ch_zero, ch_max]`.
    fn in_range(&self) -> (r: bool)
        ensures
            r == (0 <= self.val() <= Self::max_val()),
    ;

    /// This value brought into the channel's range: wrapped for a cyclic channel,
    /// clamped for a linear one.
    fn to_range(self) -> (r: Self)
        ensures
            r.val() == Self::to_range_spec(self.val()),
    ;

    /// This value clamped to `[ch_zero, ch_max]`.
    fn clamp(self) -> (r: Self)
        ensures
            r.val() == clamp_int(self.val(), Self::max_val()),
    ;
}

/// Rescales `c` into channel `D`: its clamped fraction of `C::ch_max`, times `D::ch_max`,
/// rounded to the nearest step of `D`.
pub fn conv<C: Channel, D: Channel>(c: C) -> (r: D)
    ensures
        r.val() == conv_int(c.val(), C::max_val(), D::max_val()),
{
    let c = c.clamp();
    proof {
        C::lemma_range(0);
        D::lemma_range(0);
    }
    let x = c.to_u64() as u128;
    let from_max = C::ch_max().to_u64() as u128;
    let to_max = D::ch_max().to_u64() as u128;
    proof {
        lemma_round_div_bounded(x as int, from_max as int, to_max as int);
    }
    let n = (2 * (x * to_max) + from_max) / (2 * from_max);
    D::from_u64(n as u64)
}

/// Rescaling a value of `[0, a]` to a channel of maximum `b` lands in `[0, b]`.
pub proof fn lemma_round_div_bounded(x: int, a: int, b: int)
    requires
        0 <= x <= a,
        1 <= a <= u32::MAX,
        1 <= b <= u32::MAX,
    ensures
        0 <= x * b <= a * b,
        a * b <= u32::MAX * u32::MAX,
        0 <= round_div(x * b, a) <= b,
{
    assert(0 <= x * b <= a * b) by (nonlinear_arith)
        requires 0 <= x <= a, 1 <= b;
    assert(a * b <= u32::MAX * u32::MAX) by (nonlinear_arith)
        requires 1 <= a <= u32::MAX, 1 <= b <= u32::MAX;
    assert(x * b <= b * a) by (nonlinear_arith)
        requires 0 <= x <= a, 1 <= b;
    lemma_round_div_le(x * b, a, b);
}

/// Integer division brackets its dividend: `d * (x / d) <= x < d * (x / d) + d`.
pub proof fn lemma_div_facts(x: int, d: int)
    requires
        0 <= x,
        0 < d,
    ensures
        d * (x / d) <= x < d * (x / d) + d,
        0 <= x / d,
{
    vstd::arithmetic::div_mod::lemma_fundamental_div_mod(x, d);
    vstd::arithmetic::div_mod::lemma_mod_pos_bound(x, d);
    vstd::arithmetic::div_mod::lemma_div_pos_is_pos(x, d);
}

/// `round_div(n, d) <= q` when `n <= q * d`.
pub proof fn lemma_round_div_le(n: int, d: int, q: int)
    requires
        0 <= n,
        1 <= d,
        n <= q * d,
    ensures
        0 <= round_div(n, d) <= q,
{
    let r = round_div(n, d);
    lemma_div_facts(2 * n + d, 2 * d);
    assert(r <= q) by (nonlinear_arith)
        requires
            (2 * d) * r <= 2 * n + d,
            n <= q * d,
            1 <= d,
    ;
}

/// Rescaling into a channel at least as fine and back gives the value again: for `x` in
/// `[0, C::ch_max]` and `C::ch_max <= D::ch_max`, converting to `D` and back to `C` returns
/// `x`.
pub proof fn lemma_conv_round_trip<C: Channel, D: Channel>(x: int)
    requires
        0 <= x <= C::max_val(),
        C::max_val() <= D::max_val(),
    ensures
        conv_int(conv_int(x, C::max_val(), D::max_val()), D::max_val(), C::max_val()) == x,
{
    C::lemma_range(0);
    D::lemma_range(0);
    let a = C::max_val();
    let b = D::max_val();
    lemma_round_div_bounded(x, a, b);
    let w = round_div(x * b, a);
    lemma_div_facts(2 * (x * b) + a, 2 * a);
    // 2 a w <= 2 x b + a < 2 a w + 2 a
    lemma_round_div_bounded(w, b, a);
    lemma_div_facts(2 * (w * a) + b, 2 * b);
    let r = round_div(w * a, b);
    if a == b {
        assert(w == x) by (nonlinear_arith)
            requires
                (2 * a) * w <= 2 * (x * b) + a,
                2 * (x * b) + a < (2 * a) * w + 2 * a,
                a == b,
                1 <= a,
        ;
        assert(r == x) by (nonlinear_arith)
            requires
                (2 * b) * r <= 2 * (w * a) + b,
                2 * (w * a) + b < (2 * b) * r + 2 * b,
                a == b,
                w == x,
                1 <= a,
        ;
    } else {
        assert(r == x) by (nonlinear_arith)
            requires
                (2 * a) * w <= 2 * (x * b) + a,
                2 * (x * b) + a < (2 * a) * w + 2 * a,
                (2 * b) * r <= 2 * (w * a) + b,
                2 * (w * a) + b < (2 * b) * r + 2 * b,
                a < b,
                1 <= a,
        ;
    }
}

impl Channel for u8 {
    open spec fn val(&self) -> int {
        *self as int
    }

    open spec fn max_val() -> int {
        u8::MAX as int
    }

    open spec fn integer() -> bool {
        true
    }

    open spec fn to_range_spec(x: int) -> int {
        clamp_int(x, u8::MAX as int)
    }

    proof fn lemma_range(x: int) {
    }

    fn is_integer() -> (r: bool) {
        true
    }

    fn ch_max() -> (r: u8) {
        u8::MAX
    }

    fn ch_mid() -> (r: u8) {
        u8::MAX / 2
    }

    fn ch_zero() -> (r: u8) {
        0
    }

    fn is_zero(&self) -> (r: bool) {
        *self == 0
    }

    fn from_u64(x: u64) -> (r: u8) {
        x as u8
    }

    fn to_u64(&self) -> (r: u64) {
        *self as u64
    }

    fn in_range(&self) -> (r: bool) {
        true
    }

    fn to_range(self) -> (r: u8) {
        self
    }

    fn clamp(self) -> (r: u8) {
        self
    }
}

impl Channel for u16 {
    open spec fn val(&self) -> int {
        *self as int
    }

    open spec fn max_val() -> int {
        u16::MAX as int
    }

    open spec fn integer() -> bool {
        true
    }

    open spec fn to_range_spec(x: int) -> int {
        clamp_int(x, u16::MAX as int)
    }

    proof fn lemma_range(x: int) {
    }

    fn is_integer() -> (r: bool) {
        true
    }

    fn ch_max() -> (r: u16) {
        u16::MAX
    }

    fn ch_mid() -> (r: u16) {
        u16::MAX / 2
    }

    fn ch_zero() -> (r: u16) {
        0
    }

    fn is_zero(&self) -> (r: bool) {
        *self == 0
    }

    fn from_u64(x: u64) -> (r: u16) {
        x as u16
    }

    fn to_u64(&self) -> (r: u64) {
        *self as u64
    }

    fn in_range(&self) -> (r: bool) {
        true
    }

    fn to_range(self) -> (r: u16) {
        self
    }

    fn clamp(self) -> (r: u16) {
        self
    }
}

impl Channel for u32 {
    open spec fn val(&self) -> int {
        *self as int
    }

    open spec fn max_val() -> int {
        u32::MAX as int
    }

    open spec fn integer() -> bool {
        true
    }

    open spec fn to_range_spec(x: int) -> int {
        clamp_int(x, u32::MAX as int)
    }

    proof fn lemma_range(x: int) {
    }

    fn is_integer() -> (r: bool) {
        true
    }

    fn ch_max() -> (r: u32) {
        u32::MAX
    }

    fn ch_mid() -> (r: u32) {
        u32::MAX / 2
    }

    fn ch_zero() -> (r: u32) {
        0
    }

    fn is_zero(&self) -> (r: bool) {
        *self == 0
    }

    fn from_u64(x: u64) -> (r: u32) {
        x as u32
    }

    fn to_u64(&self) -> (r: u64) {
        *self as u64
    }

    fn in_range(&self) -> (r: bool) {
        true
    }

    fn to_range(self) -> (r: u32) {
        self
    }

    fn clamp(self) -> (r: u32) {
        self
    }
}

} // verus!
