//! RGB colors: three channels of one type, tagged with a color space.
use std::marker::PhantomData;

use vstd::prelude::*;

use crate::channel::{clamp_int, conv, lemma_round_div_le, round_div, Channel};
use crate::base::{base_rgb, BaseColor};
use crate::frac::{Frac, FRAC_ONE};
use crate::hsv::{normal_form, HSVColor};
use crate::space::{LinearSpace, SRGBSpace};

verus! {

/// An RGB color with channels of type `T` in color space `S`.
#[derive(Debug, PartialEq)]
pub struct RGBColor<T, S> {
    pub r: T,
    pub g: T,
    pub b: T,
    _space: PhantomData<S>,
}

/// An RGB color with an alpha channel.
#[derive(Debug, PartialEq)]
pub struct RGBAColor<T, S> {
    pub r: T,
    pub g: T,
    pub b: T,
    pub a: T,
    _space: PhantomData<S>,
}

/// 8 bits per channel sRGB.
pub type SRGB24Color = RGBColor<u8, SRGBSpace>;

/// 16 bits per channel linear RGB.
pub type LinRGB48Color = RGBColor<u16, LinearSpace>;

/// Fractional sRGB.
pub type SRGBColor = RGBColor<Frac, SRGBSpace>;

/// Fractional sRGB with alpha.
pub type SRGBAColor = RGBAColor<Frac, SRGBSpace>;

impl<T: Channel, S> Clone for RGBColor<T, S> {
    fn clone(&self) -> (r: Self)
        ensures
            r@ == self@,
    {
        RGBColor { r: self.r, g: self.g, b: self.b, _space: PhantomData }
    }
}

impl<T: Channel, S> Copy for RGBColor<T, S> {}

impl<T: Channel, S> View for RGBColor<T, S> {
    type V = (int, int, int);

    closed spec fn view(&self) -> (int, int, int) {
        (self.r.val(), self.g.val(), self.b.val())
    }
}

impl<T: Channel, S> Clone for RGBAColor<T, S> {
    fn clone(&self) -> (r: Self)
        ensures
            r@ == self@,
    {
        RGBAColor { r: self.r, g: self.g, b: self.b, a: self.a, _space: PhantomData }
    }
}

impl<T: Channel, S> Copy for RGBAColor<T, S> {}

impl<T: Channel, S> View for RGBAColor<T, S> {
    type V = (int, int, int, int);

    closed spec fn view(&self) -> (int, int, int, int) {
        (self.r.val(), self.g.val(), self.b.val(), self.a.val())
    }
}

/// The HSV triple, with hue in steps of a turn of `hm` and saturation and value in steps
/// of `tm`, of the RGB color `(r, g, b)` in steps of `tm`.
///
/// The channels are clamped first. The value is the largest component and the chroma
/// `c` the largest less the smallest. The saturation is `c` over the value (zero for
/// black). The hue is zero for a grey; otherwise its sixths of a turn are `(g - b) / c`
/// (plus six where negative) when red is largest, `(b - r) / c + 2` when green is, and
/// `(r - g) / c + 4` when blue is.
pub open spec fn rgb_to_hsv(r: int, g: int, b: int, tm: int, hm: int) -> (int, int, int) {
    let r = clamp_int(r, tm);
    let g = clamp_int(g, tm);
    let b = clamp_int(b, tm);
    let mx = if r >= g && r >= b { r } else if g >= b { g } else { b };
    let mn = if r <= g && r <= b { r } else if g <= b { g } else { b };
    let c = mx - mn;
    let s = if mx == 0 { 0 } else { round_div(c * tm, mx) };
    let sixths = if mx == r {
        if g >= b { g - b } else { g - b + 6 * c }
    } else if mx == g {
        b - r + 2 * c
    } else {
        r - g + 4 * c
    };
    let h = if c == 0 { 0 } else { round_div(sixths * hm, 6 * c) };
    (h, s, mx)
}

impl<T: Channel, S> RGBColor<T, S> {
    /// A new RGB color, each channel clamped into its range.
    pub fn new(r: T, g: T, b: T) -> (c: Self)
        ensures
            c@ == (
                clamp_int(r.val(), T::max_val()),
                clamp_int(g.val(), T::max_val()),
                clamp_int(b.val(), T::max_val()),
            ),
    {
        RGBColor { r: r.clamp(), g: g.clamp(), b: b.clamp(), _space: PhantomData }
    }

    /// The channels as a tuple, in (red, green, blue) order.
    pub fn tuple(self) -> (t: (T, T, T))
        ensures
            t.0.val() == self@.0,
            t.1.val() == self@.1,
            t.2.val() == self@.2,
    {
        (self.r, self.g, self.b)
    }

    /// The channels in (red, green, blue) order: exactly three of them.
    pub fn channels(&self) -> (v: Vec<T>)
        ensures
            v@.len() == 3,
            v@[0].val() == self@.0,
            v@[1].val() == self@.1,
            v@[2].val() == self@.2,
    {
        let mut v: Vec<T> = Vec::new();
        v.push(self.r);
        v.push(self.g);
        v.push(self.b);
        v
    }

    /// This color in HSV form, with hue channel `H` (see `rgb_to_hsv`), normalized.
    pub fn hsv<H: Channel>(self) -> (c: HSVColor<H, T, S>)
        ensures
            c@ == ({
                let t = rgb_to_hsv(self@.0, self@.1, self@.2, T::max_val(), H::max_val());
                normal_form::<H, T>(t.0, t.1, t.2)
            }),
    {
        proof {
            H::lemma_range(0);
            T::lemma_range(0);
        }
        let hm = H::ch_max().to_u64() as u128;
        let tm = T::ch_max().to_u64() as u128;
        let r = self.r.clamp().to_u64() as u128;
        let g = self.g.clamp().to_u64() as u128;
        let b = self.b.clamp().to_u64() as u128;
        let mx = if r >= g && r >= b { r } else if g >= b { g } else { b };
        let mn = if r <= g && r <= b { r } else if g <= b { g } else { b };
        let c = mx - mn;
        let s = if mx == 0 {
            0
        } else {
            proof {
                assert(c * tm <= tm * mx) by (nonlinear_arith)
                    requires c <= mx, 0 <= tm;
                assert(tm * mx <= 0xffff_ffff_ffff_ffffu128) by (nonlinear_arith)
                    requires mx <= tm, tm <= u32::MAX;
                lemma_round_div_le((c * tm) as int, mx as int, tm as int);
            }
            (2 * (c * tm) + mx) / (2 * mx)
        };
        let sixths = if mx == r {
            if g >= b { g - b } else { g + 6 * c - b }
        } else if mx == g {
            b + 2 * c - r
        } else {
            r + 4 * c - g
        };
        let h = if c == 0 {
            0
        } else {
            proof {
                assert(sixths * hm <= hm * (6 * c)) by (nonlinear_arith)
                    requires sixths <= 6 * c, 0 <= hm;
                assert(hm * (6 * c) <= 0xffff_ffff_ffff_ffff_ffffu128) by (nonlinear_arith)
                    requires c <= u32::MAX, hm <= u32::MAX;
                lemma_round_div_le((sixths * hm) as int, 6 * c as int, hm as int);
            }
            (2 * (sixths * hm) + 6 * c) / (2 * (6 * c))
        };
        HSVColor::new(H::from_u64(h as u64), T::from_u64(s as u64), T::from_u64(mx as u64))
    }

    /// Every channel rescaled into channel type `T2`; the color space is kept.
    pub fn conv<T2: Channel>(self) -> (c: RGBColor<T2, S>)
        ensures
            c@ == (
                crate::channel::conv_int(self@.0, T::max_val(), T2::max_val()),
                crate::channel::conv_int(self@.1, T::max_val(), T2::max_val()),
                crate::channel::conv_int(self@.2, T::max_val(), T2::max_val()),
            ),
    {
        RGBColor { r: conv(self.r), g: conv(self.g), b: conv(self.b), _space: PhantomData }
    }
}

impl<S> RGBColor<Frac, S> {
    /// The fractional RGB color of a base color: each component zero, one half or one.
    pub fn from_base(base: BaseColor) -> (c: Self)
        ensures
            c@ == base_rgb(base),
    {
        let (r, g, b): (i32, i32, i32) = match base {
            BaseColor::Black => (0, 0, 0),
            BaseColor::Grey => (FRAC_ONE / 2, FRAC_ONE / 2, FRAC_ONE / 2),
            BaseColor::White => (FRAC_ONE, FRAC_ONE, FRAC_ONE),
            BaseColor::Red => (FRAC_ONE, 0, 0),
            BaseColor::Yellow => (FRAC_ONE, FRAC_ONE, 0),
            BaseColor::Green => (0, FRAC_ONE, 0),
            BaseColor::Cyan => (0, FRAC_ONE, FRAC_ONE),
            BaseColor::Blue => (0, 0, FRAC_ONE),
            BaseColor::Magenta => (FRAC_ONE, 0, FRAC_ONE),
        };
        RGBColor::new(Frac(r), Frac(g), Frac(b))
    }
}

impl<T: Channel, S> RGBAColor<T, S> {
    /// A new RGBA color from a color triple and an alpha, each channel clamped into
    /// its range.
    pub fn new(rgb: (T, T, T), a: T) -> (c: Self)
        ensures
            c@ == (
                clamp_int(rgb.0.val(), T::max_val()),
                clamp_int(rgb.1.val(), T::max_val()),
                clamp_int(rgb.2.val(), T::max_val()),
                clamp_int(a.val(), T::max_val()),
            ),
    {
        let (r, g, b) = rgb;
        RGBAColor { r: r.clamp(), g: g.clamp(), b: b.clamp(), a: a.clamp(), _space: PhantomData }
    }

    /// The channels as a tuple, in (red, green, blue, alpha) order.
    pub fn tuple(self) -> (t: (T, T, T, T))
        ensures
            t.0.val() == self@.0,
            t.1.val() == self@.1,
            t.2.val() == self@.2,
            t.3.val() == self@.3,
    {
        (self.r, self.g, self.b, self.a)
    }

    /// The channels in (red, green, blue, alpha) order: exactly four of them.
    pub fn channels(&self) -> (v: Vec<T>)
        ensures
            v@.len() == 4,
            v@[0].val() == self@.0,
            v@[1].val() == self@.1,
            v@[2].val() == self@.2,
            v@[3].val() == self@.3,
    {
        let mut v: Vec<T> = Vec::new();
        v.push(self.r);
        v.push(self.g);
        v.push(self.b);
        v.push(self.a);
        v
    }
}

} // verus!
