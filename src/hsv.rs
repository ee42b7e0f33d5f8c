//! HSV colors: construction in normal form, normalization, channel rescaling and the
//! conversion to RGB.
use std::marker::PhantomData;

use vstd::prelude::*;

use crate::angle::{AngleDeg, TURN_MILLIDEG};
use crate::base::{base_hsv, base_rgb, BaseColor};
use crate::channel::{clamp_int, conv, conv_int, lemma_div_facts, lemma_round_div_le, round_div, Channel};
use crate::rgb::{rgb_to_hsv, RGBColor};
use crate::frac::{Frac, FRAC_ONE};
use crate::space::{LinearSpace, SRGBSpace};

verus! {

/// A HSV color.
///
/// `H` is the type of the hue channel, `T` the type of the saturation and value channels,
/// `S` the color space. `new` normalizes, so a color built by it is always normal.
#[derive(Debug, PartialEq)]
pub struct HSVColor<H, T, S> {
    h: H,
    s: T,
    v: T,
    _space: PhantomData<S>,
}

/// The usual HSV color: hue in degrees, fractional saturation and value, in sRGB.
pub type StdHSVColor = HSVColor<AngleDeg, Frac, SRGBSpace>;

impl<H: Channel, T: Channel, S> Clone for HSVColor<H, T, S> {
    fn clone(&self) -> (r: Self)
        ensures
            r@ == self@,
    {
        HSVColor { h: self.h, s: self.s, v: self.v, _space: PhantomData }
    }
}

impl<H: Channel, T: Channel, S> Copy for HSVColor<H, T, S> {}

impl<H: Channel, T: Channel, S> View for HSVColor<H, T, S> {
    type V = (int, int, int);

    closed spec fn view(&self) -> (int, int, int) {
        (self.h.val(), self.s.val(), self.v.val())
    }
}

/// The normal form of the triple `(h, s, v)`: saturation and value are clamped first; a zero value makes the color black `(0, 0, 0)`; otherwise a zero saturation
/// makes it a grey `(0, 0, v)`; otherwise the hue is brought into range too.
pub open spec fn normal_form<H: Channel, T: Channel>(h: int, s: int, v: int) -> (int, int, int) {
    let s2 = clamp_int(s, T::max_val());
    let v2 = clamp_int(v, T::max_val());
    if v2 == 0 {
        (0, 0, 0)
    } else if s2 == 0 {
        (0, 0, v2)
    } else {
        (H::to_range_spec(h), s2, v2)
    }
}

/// A triple is normal when every channel is in range, black carries no hue nor
/// saturation, and a grey carries no hue.
pub open spec fn is_normal_triple<H: Channel, T: Channel>(h: int, s: int, v: int) -> bool {
    &&& 0 <= h <= H::max_val()
    &&& 0 <= s <= T::max_val()
    &&& 0 <= v <= T::max_val()
    &&& (v == 0 ==> h == 0 && s == 0)
    &&& (s == 0 ==> h == 0)
}

/// The RGB components, in steps of a channel of maximum `tm`, of the HSV color whose hue
/// is `h` of a turn of `hm` steps and whose saturation and value are `s` and `v` of `tm`.
///
/// All three channels are clamped first. The hue falls in sector `k = floor(6 h / hm)`,
/// with `f` its offset in that sector. The largest component is the value, the smallest
/// is `value - chroma` with `chroma = s * v`, and the middle one adds to the smallest
/// the part of the chroma that the position in the sector gives (rising in even sectors,
/// falling in odd ones). The sector decides which component is which; sector 6, the
/// hue of a full turn, is sector 0 again.
pub open spec fn hsv_to_rgb(h: int, s: int, v: int, hm: int, tm: int) -> (int, int, int) {
    let hc = clamp_int(h, hm);
    let sc = clamp_int(s, tm);
    let vc = clamp_int(v, tm);
    let k = 6 * hc / hm;
    let f = 6 * hc - k * hm;
    let rise = if k % 2 == 0 { f } else { hm - f };
    let low_num = vc * tm - sc * vc;
    let hi = vc;
    let lo = round_div(low_num, tm);
    let mid = round_div(low_num * hm + sc * vc * rise, tm * hm);
    if k == 0 {
        (hi, mid, lo)
    } else if k == 1 {
        (mid, hi, lo)
    } else if k == 2 {
        (lo, hi, mid)
    } else if k == 3 {
        (lo, mid, hi)
    } else if k == 4 {
        (mid, lo, hi)
    } else {
        (hi, lo, mid)
    }
}

impl<H: Channel, T: Channel, S> HSVColor<H, T, S> {
    /// Deconstructs this color into a tuple of its channels.
    pub fn tuple(self) -> (t: (H, T, T))
        ensures
            (t.0.val(), t.1.val(), t.2.val()) == self@,
    {
        (self.h, self.s, self.v)
    }

    /// The hue channel.
    pub fn hue(&self) -> (r: H)
        ensures
            r.val() == self@.0,
    {
        self.h
    }

    /// The saturation channel.
    pub fn saturation(&self) -> (r: T)
        ensures
            r.val() == self@.1,
    {
        self.s
    }

    /// The value channel.
    pub fn value(&self) -> (r: T)
        ensures
            r.val() == self@.2,
    {
        self.v
    }

    /// A new HSV color, normalized.
    pub fn new(h: H, s: T, v: T) -> (c: Self)
        ensures
            c@ == normal_form::<H, T>(h.val(), s.val(), v.val()),
            is_normal_triple::<H, T>(c@.0, c@.1, c@.2),
    {
        HSVColor { h, s, v, _space: PhantomData }.normalize()
    }

    /// This color in normal form (see `normal_form`).
    pub fn normalize(self) -> (c: Self)
        ensures
            c@ == normal_form::<H, T>(self@.0, self@.1, self@.2),
            is_normal_triple::<H, T>(c@.0, c@.1, c@.2),
    {
        proof {
            lemma_normal_form_is_normal::<H, T>(self@.0, self@.1, self@.2);
        }
        let s = self.s.clamp();
        let v = self.v.clamp();
        if v.is_zero() {
            Self::default()
        } else if s.is_zero() {
            HSVColor { h: H::ch_zero(), s: T::ch_zero(), v, _space: PhantomData }
        } else {
            HSVColor { h: self.h.to_range(), s, v, _space: PhantomData }
        }
    }

    /// Whether this color is in normal form.
    pub fn is_normal(&self) -> (r: bool)
        ensures
            r == is_normal_triple::<H, T>(self@.0, self@.1, self@.2),
    {
        if !self.h.in_range() || !self.s.in_range() || !self.v.in_range() {
            false
        } else if self.v.is_zero() {
            self.h.is_zero() && self.s.is_zero()
        } else if self.s.is_zero() {
            self.h.is_zero()
        } else {
            true
        }
    }

    /// This color in RGB form, by the hue-sector method (see `hsv_to_rgb`), in the same
    /// color space and with channels of the saturation and value type.
    pub fn rgb(self) -> (c: RGBColor<T, S>)
        ensures
            c@ == hsv_to_rgb(self@.0, self@.1, self@.2, H::max_val(), T::max_val()),
    {
        proof {
            H::lemma_range(0);
            T::lemma_range(0);
        }
        let hm = H::ch_max().to_u64() as u128;
        let tm = T::ch_max().to_u64() as u128;
        let hc = self.h.clamp().to_u64() as u128;
        let sc = self.s.clamp().to_u64() as u128;
        let vc = self.v.clamp().to_u64() as u128;
        let k = 6 * hc / hm;
        proof {
            lemma_div_facts(6 * hc as int, hm as int);
            assert(k <= 6) by (nonlinear_arith)
                requires hm * k <= 6 * hc, hc <= hm, 1 <= hm;
            assert(k * hm == hm * k) by (nonlinear_arith);
            assert(6 * hc - k * hm < hm);
        }
        let f = 6 * hc - k * hm;
        let rise = if k % 2 == 0 { f } else { hm - f };
        proof {
            assert(sc * vc <= vc * tm) by (nonlinear_arith)
                requires sc <= tm, 0 <= vc;
            assert(vc * tm <= 0xffff_ffff_ffff_ffffu128) by (nonlinear_arith)
                requires vc <= tm, tm <= u32::MAX;
        }
        let sv = sc * vc;
        let low_num = vc * tm - sv;
        proof {
            assert(low_num * hm <= vc * tm * hm) by (nonlinear_arith)
                requires low_num <= vc * tm, 0 <= hm;
            assert(vc * tm * hm <= 0xffff_ffff_ffff_ffff_ffff_ffffu128) by (nonlinear_arith)
                requires vc * tm <= 0xffff_ffff_ffff_ffffu128, hm <= u32::MAX;
            assert(sv * rise <= sv * hm) by (nonlinear_arith)
                requires rise <= hm, 0 <= sv;
            assert(low_num * hm + sv * hm == vc * tm * hm) by (nonlinear_arith)
                requires low_num == vc * tm - sv;
            assert(tm * hm <= 0xffff_ffff_ffff_ffffu128) by (nonlinear_arith)
                requires tm <= u32::MAX, hm <= u32::MAX;
            assert(1 <= tm * hm) by (nonlinear_arith)
                requires 1 <= tm, 1 <= hm;
            assert(vc * tm * hm == vc * (tm * hm)) by (nonlinear_arith);
            lemma_round_div_le(low_num as int, tm as int, vc as int);
            lemma_round_div_le((low_num * hm + sv * rise) as int, (tm * hm) as int, vc as int);
        }
        let mid_num = low_num * hm + sv * rise;
        let lo = (2 * low_num + tm) / (2 * tm);
        let mid = (2 * mid_num + tm * hm) / (2 * (tm * hm));
        let hi = T::from_u64(vc as u64);
        let lo = T::from_u64(lo as u64);
        let mid = T::from_u64(mid as u64);
        if k == 0 {
            RGBColor::new(hi, mid, lo)
        } else if k == 1 {
            RGBColor::new(mid, hi, lo)
        } else if k == 2 {
            RGBColor::new(lo, hi, mid)
        } else if k == 3 {
            RGBColor::new(lo, mid, hi)
        } else if k == 4 {
            RGBColor::new(mid, lo, hi)
        } else {
            RGBColor::new(hi, lo, mid)
        }
    }

    /// Every channel rescaled into the channel types `H2` and `T2`; the color space is kept.
    /// The result is not normalized again.
    pub fn conv<H2: Channel, T2: Channel>(self) -> (c: HSVColor<H2, T2, S>)
        ensures
            c@ == (
                conv_int(self@.0, H::max_val(), H2::max_val()),
                conv_int(self@.1, T::max_val(), T2::max_val()),
                conv_int(self@.2, T::max_val(), T2::max_val()),
            ),
    {
        HSVColor { h: conv(self.h), s: conv(self.s), v: conv(self.v), _space: PhantomData }
    }
}

impl<H: Channel, T: Channel, S> HSVColor<H, T, S> {
    /// A new HSV color from a `(hue, saturation, value)` tuple, normalized.
    pub fn from_tuple(t: (H, T, T)) -> (c: Self)
        ensures
            c@ == normal_form::<H, T>(t.0.val(), t.1.val(), t.2.val()),
    {
        let (h, s, v) = t;
        Self::new(h, s, v)
    }

    /// A new HSV color from a borrowed `(hue, saturation, value)` tuple, normalized.
    pub fn from_tuple_ref(t: &(H, T, T)) -> (c: Self)
        ensures
            c@ == normal_form::<H, T>(t.0.val(), t.1.val(), t.2.val()),
    {
        Self::new(t.0, t.1, t.2)
    }
}

impl<H: Channel, T: Channel> HSVColor<H, T, SRGBSpace> {
    /// The sRGB HSV color of a base color: its hue in degrees and its saturation and
    /// value as fractions, rescaled into `H` and `T` and normalized.
    pub fn from_base(base: BaseColor) -> (c: Self)
        ensures
            c@ == ({
                let (h, s, v) = base_hsv(base);
                normal_form::<H, T>(
                    conv_int(h * 1000, TURN_MILLIDEG as int, H::max_val()),
                    conv_int(s, FRAC_ONE as int, T::max_val()),
                    conv_int(v, FRAC_ONE as int, T::max_val()),
                )
            }),
    {
        let (h, s, v): (i16, i32, i32) = match base {
            BaseColor::Black => (0, 0, 0),
            BaseColor::Grey => (0, 0, FRAC_ONE / 2),
            BaseColor::White => (0, 0, FRAC_ONE),
            BaseColor::Red => (0, FRAC_ONE, FRAC_ONE),
            BaseColor::Yellow => (60, FRAC_ONE, FRAC_ONE),
            BaseColor::Green => (120, FRAC_ONE, FRAC_ONE),
            BaseColor::Cyan => (180, FRAC_ONE, FRAC_ONE),
            BaseColor::Blue => (240, FRAC_ONE, FRAC_ONE),
            BaseColor::Magenta => (300, FRAC_ONE, FRAC_ONE),
        };
        Self::new(conv(AngleDeg::from_degrees(h)), conv(Frac(s)), conv(Frac(v)))
    }
}

impl<H: Channel, T: Channel> HSVColor<H, T, LinearSpace> {
    /// The linear HSV color of a base color: its fractional RGB corner converted to HSV
    /// (hue in degrees), then rescaled into `H` and `T`.
    pub fn from_base_linear(base: BaseColor) -> (c: Self)
        ensures
            c@ == ({
                let (r, g, b) = base_rgb(base);
                let t = rgb_to_hsv(r, g, b, FRAC_ONE as int, TURN_MILLIDEG as int);
                let n = normal_form::<AngleDeg, Frac>(t.0, t.1, t.2);
                (
                    conv_int(n.0, TURN_MILLIDEG as int, H::max_val()),
                    conv_int(n.1, FRAC_ONE as int, T::max_val()),
                    conv_int(n.2, FRAC_ONE as int, T::max_val()),
                )
            }),
    {
        let rgb: RGBColor<Frac, LinearSpace> = RGBColor::from_base(base);
        let hsv: HSVColor<AngleDeg, Frac, LinearSpace> = rgb.hsv();
        hsv.conv()
    }
}

impl<H: Channel, T: Channel, S> Default for HSVColor<H, T, S> {
    /// Black: every channel zero.
    fn default() -> (c: Self)
        ensures
            c@ == (0int, 0int, 0int),
    {
        HSVColor { h: H::ch_zero(), s: T::ch_zero(), v: T::ch_zero(), _space: PhantomData }
    }
}

/// The normal form is normal.
pub proof fn lemma_normal_form_is_normal<H: Channel, T: Channel>(h: int, s: int, v: int)
    ensures
        ({
            let n = normal_form::<H, T>(h, s, v);
            is_normal_triple::<H, T>(n.0, n.1, n.2)
        }),
{
    H::lemma_range(h);
    H::lemma_range(0);
    T::lemma_range(s);
    T::lemma_range(v);
    T::lemma_range(0);
}

/// Normalizing twice is normalizing once.
pub proof fn lemma_normalize_idempotent<H: Channel, T: Channel>(h: int, s: int, v: int)
    ensures
        ({
            let n = normal_form::<H, T>(h, s, v);
            normal_form::<H, T>(n.0, n.1, n.2) == n
        }),
{
    lemma_normal_form_is_normal::<H, T>(h, s, v);
    H::lemma_range(h);
    H::lemma_range(0);
    let n = normal_form::<H, T>(h, s, v);
    lemma_normal_is_fixed::<H, T>(n.0, n.1, n.2);
}

/// A normal triple whose hue is already reduced (for a cyclic hue, below a full turn) is
/// its own normal form.
pub proof fn lemma_normal_is_fixed<H: Channel, T: Channel>(h: int, s: int, v: int)
    requires
        is_normal_triple::<H, T>(h, s, v),
        H::to_range_spec(h) == h,
    ensures
        normal_form::<H, T>(h, s, v) == (h, s, v),
{
    H::lemma_range(h);
    T::lemma_range(s);
    T::lemma_range(v);
}

/// Black absorbs hue and saturation: with a zero value every channel becomes zero.
pub proof fn lemma_black_collapse<H: Channel, T: Channel>(h: int, s: int)
    ensures
        normal_form::<H, T>(h, s, 0) == (0int, 0int, 0int),
{
    T::lemma_range(0);
}

/// A grey carries no hue: with a zero saturation and a nonzero value in range, the hue
/// becomes zero and the value is kept.
pub proof fn lemma_grey_collapse<H: Channel, T: Channel>(h: int, v: int)
    requires
        0 < v <= T::max_val(),
    ensures
        normal_form::<H, T>(h, 0, v) == (0int, 0int, v),
{
    T::lemma_range(0);
    T::lemma_range(v);
}

/// Saturation is clamped, not scaled: a fractional saturation of two (any saturation
/// above one) normalizes to exactly one wherever the value is nonzero.
pub proof fn lemma_saturation_clamped<H: Channel>(h: int, s: int, v: int)
    requires
        s > FRAC_ONE,
        0 < v,
    ensures
        normal_form::<H, Frac>(h, s, v).1 == FRAC_ONE as int,
{
}

} // verus!
