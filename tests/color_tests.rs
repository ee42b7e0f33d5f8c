use color::angle::{AngleDeg, AngleRad};
use color::base::BaseColor;
use color::channel::{conv, Channel};
use color::frac::Frac;
use color::hsv::{HSVColor, StdHSVColor};
use color::rgb::{LinRGB48Color, SRGB24Color, SRGBAColor, SRGBColor};
use color::space::{LinearSpace, SRGBSpace};

#[test]
fn into_iterator() {
    let c1 = SRGBAColor::new((Frac(250_000), Frac(500_000), Frac(1_000_000)), Frac(900_000));
    let c2 = LinRGB48Color::new(255, 8, 240);
    let mut i1 = c1.channels().into_iter();
    let mut i2 = c2.channels().into_iter();

    assert_eq!(i1.next(), Some(Frac(250_000)));
    assert_eq!(i1.next(), Some(Frac(500_000)));
    assert_eq!(i1.next(), Some(Frac(1_000_000)));
    assert_eq!(i1.next(), Some(Frac(900_000)));
    assert_eq!(i1.next(), None);

    assert_eq!(i2.next(), Some(255));
    assert_eq!(i2.next(), Some(8));
    assert_eq!(i2.next(), Some(240));
    assert_eq!(i2.next(), None);
}

#[test]
fn angle_conversion() {
    for i in 0..=999 {
        // the fraction i / 1000, in millionths
        let f = Frac(i * 1000);
        let deg: AngleDeg = conv(f);
        let rad: AngleRad = conv(f);

        // f * 360 degrees, in thousandths of a degree
        assert_eq!(deg.0, i * 360);
        // f * 2 pi radians, in millionths of a radian, to the nearest step
        let exact = (i as f64 / 1000.0) * 2.0 * std::f64::consts::PI * 1_000_000.0;
        assert!((rad.0 as f64 - exact).abs() <= 1.0);
        // degrees to radians and back
        assert_eq!(conv::<AngleRad, AngleDeg>(rad), deg);
    }
}

#[test]
fn normalization() {
    let rgba = SRGBAColor::new((Frac(2_000_000), Frac(-10_000_000), Frac(i32::MIN)), Frac(i32::MAX));
    let hsv1 = StdHSVColor::new(AngleDeg(-90_000), Frac(2_000_000), Frac(-5_000_000));
    let hsv2 = StdHSVColor::new(AngleDeg(600), Frac(0), Frac(500_000));
    let hsv3 = StdHSVColor::new(AngleDeg(0), Frac(900_000), Frac(200_000));
    let hsv4 = StdHSVColor::new(AngleDeg(500), Frac(250_000), Frac(0));
    let hsv5 = StdHSVColor::new(AngleDeg(0), Frac(0), Frac(800_000));

    assert_eq!(rgba.tuple(), (Frac(1_000_000), Frac(0), Frac(0), Frac(1_000_000)));
    // the value clamps to zero first, and black absorbs hue and saturation
    assert_eq!(hsv1.tuple(), (AngleDeg(0), Frac(0), Frac(0)));
    assert_eq!(hsv2.tuple(), (AngleDeg(0), Frac(0), Frac(500_000)));
    assert_eq!(hsv3.tuple(), (AngleDeg(0), Frac(900_000), Frac(200_000)));
    assert_eq!(hsv4.tuple(), (AngleDeg(0), Frac(0), Frac(0)));
    assert_eq!(hsv5.tuple(), (AngleDeg(0), Frac(0), Frac(800_000)));
}

#[test]
fn hue_wraps_negative_angle() {
    let c = StdHSVColor::new(AngleDeg(-90_000), Frac(500_000), Frac(500_000));
    assert_eq!(c.tuple(), (AngleDeg(270_000), Frac(500_000), Frac(500_000)));
    let d = StdHSVColor::new(AngleDeg(720_000 + 45_000), Frac(500_000), Frac(500_000));
    assert_eq!(d.tuple().0, AngleDeg(45_000));
    let e = StdHSVColor::new(AngleDeg(-360_000), Frac(500_000), Frac(500_000));
    assert_eq!(e.tuple().0, AngleDeg(0));
}

#[test]
fn saturation_is_clamped() {
    let c = StdHSVColor::new(AngleDeg(10_000), Frac(2_000_000), Frac(700_000));
    assert_eq!(c.tuple(), (AngleDeg(10_000), Frac(1_000_000), Frac(700_000)));
    let d = StdHSVColor::new(AngleDeg(10_000), Frac(500_000), Frac(3_000_000));
    assert_eq!(d.tuple(), (AngleDeg(10_000), Frac(500_000), Frac(1_000_000)));
}

#[test]
fn degenerate_collapse() {
    for h in [-400_000, -1, 0, 90_000, 359_999, 1_000_000] {
        let black = StdHSVColor::new(AngleDeg(h), Frac(700_000), Frac(0));
        assert_eq!(black.tuple(), (AngleDeg(0), Frac(0), Frac(0)));
        let grey = StdHSVColor::new(AngleDeg(h), Frac(0), Frac(300_000));
        assert_eq!(grey.tuple(), (AngleDeg(0), Frac(0), Frac(300_000)));
    }
    let negative_saturation = StdHSVColor::new(AngleDeg(90_000), Frac(-3), Frac(300_000));
    assert_eq!(negative_saturation.tuple(), (AngleDeg(0), Frac(0), Frac(300_000)));
}

#[test]
fn normalize_is_idempotent() {
    let inputs = [
        (-90_000, 2_000_000, 500_000),
        (400_000, 300_000, -1),
        (123_456, 0, 999_999),
        (359_999, 1, 1),
        (0, 0, 0),
    ];
    for (h, s, v) in inputs {
        let once = StdHSVColor::new(AngleDeg(h), Frac(s), Frac(v));
        assert!(once.is_normal());
        let (h1, s1, v1) = once.tuple();
        let twice = StdHSVColor::new(h1, s1, v1).normalize();
        assert_eq!(twice.tuple(), (h1, s1, v1));
    }
}

#[test]
fn is_normal_rejects_hue_on_grey() {
    let c: HSVColor<u16, u16, SRGBSpace> = HSVColor::new(1000, 1, 30000);
    assert!(c.is_normal());
    // narrowing rounds the tiny saturation to zero and leaves a hue on a grey
    let d: HSVColor<u16, u8, SRGBSpace> = c.conv();
    assert_eq!(d.tuple(), (1000, 0, 117));
    assert!(!d.is_normal());
    let e = d.normalize();
    assert!(e.is_normal());
    assert_eq!(e.tuple(), (0, 0, 117));
}

#[test]
fn angle_channels_as_saturation_and_value() {
    type AngleHSV = HSVColor<AngleDeg, AngleDeg, SRGBSpace>;
    let black = AngleHSV::new(AngleDeg(10_000), AngleDeg(-1), AngleDeg(-1));
    assert_eq!(black.tuple(), (AngleDeg(0), AngleDeg(0), AngleDeg(0)));
    let grey = AngleHSV::new(AngleDeg(10_000), AngleDeg(0), AngleDeg(360_000));
    assert_eq!(grey.tuple(), (AngleDeg(0), AngleDeg(0), AngleDeg(360_000)));
    let over = AngleHSV::new(AngleDeg(-10_000), AngleDeg(500_000), AngleDeg(400_000));
    assert_eq!(over.tuple(), (AngleDeg(350_000), AngleDeg(360_000), AngleDeg(360_000)));
    assert!(over.is_normal());
    let red = HSVColor::<AngleDeg, AngleDeg, color::space::LinearSpace>::from_base_linear(BaseColor::Red);
    assert_eq!(red.tuple(), (AngleDeg(0), AngleDeg(360_000), AngleDeg(360_000)));
    assert!(red.is_normal());
}

#[test]
fn rescaled_full_hue_stays_normal() {
    let c: HSVColor<u8, u8, SRGBSpace> = HSVColor::new(255, 255, 255);
    let d: HSVColor<AngleDeg, u8, SRGBSpace> = c.conv();
    assert_eq!(d.tuple(), (AngleDeg(360_000), 255, 255));
    assert!(d.is_normal());
}

#[test]
fn clone_and_accessors() {
    let c = StdHSVColor::new(AngleDeg(42_000), Frac(300_000), Frac(600_000));
    let d = c.clone();
    assert_eq!(c, d);
    assert_eq!(d.hue(), AngleDeg(42_000));
    assert_eq!(d.saturation(), Frac(300_000));
    assert_eq!(d.value(), Frac(600_000));
    assert_eq!(c.tuple(), d.tuple());
    let rgb = SRGB24Color::new(1, 2, 3);
    assert_eq!(rgb.clone(), rgb);
}

#[test]
fn channel_rescaling_round_trips() {
    for v in 0..=255u8 {
        let wide: u16 = conv(v);
        assert_eq!(conv::<u16, u8>(wide), v);
        let widest: u32 = conv(v);
        assert_eq!(conv::<u32, u8>(widest), v);
        let f: Frac = conv(v);
        assert_eq!(conv::<Frac, u8>(f), v);
    }
    for v in [0u16, 1, 255, 256, 32767, 32768, 65534, 65535] {
        let wide: u32 = conv(v);
        assert_eq!(conv::<u32, u16>(wide), v);
    }
}

#[test]
fn channel_rescaling_values() {
    assert_eq!(conv::<u8, u16>(255), 65535);
    assert_eq!(conv::<u8, u16>(1), 257);
    assert_eq!(conv::<u16, u8>(32768), 128);
    assert_eq!(conv::<u8, Frac>(128), Frac(501_961));
    assert_eq!(conv::<Frac, u8>(Frac(500_000)), 128);
    assert_eq!(conv::<Frac, u8>(Frac(-7)), 0);
    assert_eq!(conv::<Frac, u8>(Frac(5_000_000)), 255);
    assert_eq!(conv::<u32, u8>(u32::MAX), 255);
}

#[test]
fn channel_landmarks() {
    assert_eq!(<u8 as Channel>::ch_max(), 255);
    assert_eq!(<u8 as Channel>::ch_mid(), 127);
    assert_eq!(<u16 as Channel>::ch_mid(), 32767);
    assert_eq!(<u32 as Channel>::ch_zero(), 0);
    assert_eq!(Frac::ch_max(), Frac(1_000_000));
    assert_eq!(Frac::ch_mid(), Frac(500_000));
    assert_eq!(AngleDeg::ch_max(), AngleDeg(360_000));
    assert_eq!(AngleDeg::ch_mid(), AngleDeg(180_000));
    assert!(<u8 as Channel>::is_integer());
    assert!(!Frac::is_integer());
    assert!(!AngleDeg::is_integer());
}

#[test]
fn channel_clamp_and_range() {
    assert_eq!(Frac(1_500_000).clamp(), Frac(1_000_000));
    assert_eq!(Frac(-1).clamp(), Frac(0));
    assert_eq!(Frac(250_000).clamp(), Frac(250_000));
    assert!(Frac(1_000_000).in_range());
    assert!(!Frac(1_000_001).in_range());
    assert!(!Frac(-1).in_range());
    assert!(AngleDeg(0).in_range());
    assert!(AngleDeg(360_000).in_range());
    assert!(!AngleDeg(360_001).in_range());
    assert!(AngleDeg(400_000).clamp().in_range());
    assert_eq!(AngleRad(-1).to_range(), AngleRad(6_283_184));
    assert_eq!(AngleRad::ch_max(), AngleRad(6_283_185));
    assert_eq!(AngleDeg(360_000).to_range(), AngleDeg(0));
    assert_eq!(AngleDeg(-1).to_range(), AngleDeg(359_999));
    assert_eq!(AngleDeg(400_000).clamp(), AngleDeg(360_000));
    assert_eq!(AngleDeg(-400_000).clamp(), AngleDeg(0));
}

#[test]
fn hsv_to_rgb_sectors() {
    let cases = [
        (0, (255u8, 0u8, 0u8)),
        (30, (255, 128, 0)),
        (60, (255, 255, 0)),
        (120, (0, 255, 0)),
        (180, (0, 255, 255)),
        (240, (0, 0, 255)),
        (300, (255, 0, 255)),
        (330, (255, 0, 128)),
    ];
    for (deg, rgb) in cases {
        let c = StdHSVColor::new(AngleDeg::from_degrees(deg), Frac(1_000_000), Frac(1_000_000));
        let out: SRGB24Color = c.rgb().conv();
        assert_eq!(out.tuple(), rgb);
    }
}

#[test]
fn hsv_to_rgb_grey_and_partial() {
    let grey = StdHSVColor::new(AngleDeg(0), Frac(0), Frac(500_000));
    assert_eq!(grey.rgb().tuple(), (Frac(500_000), Frac(500_000), Frac(500_000)));
    let dim = StdHSVColor::new(AngleDeg(90_000), Frac(500_000), Frac(800_000));
    // chroma 0.4, smallest 0.4, middle 0.4 + 0.4 * 0.5
    assert_eq!(dim.rgb().tuple(), (Frac(600_000), Frac(800_000), Frac(400_000)));
    let full_turn: HSVColor<u8, u8, SRGBSpace> = HSVColor::new(255, 255, 255);
    assert_eq!(full_turn.rgb().tuple(), (255, 0, 0));
}

#[test]
fn hsv_channel_rescaling() {
    let c = StdHSVColor::new(AngleDeg(180_000), Frac(500_000), Frac(1_000_000));
    let d: HSVColor<u8, u16, SRGBSpace> = c.conv();
    assert_eq!(d.tuple(), (128, 32768, 65535));
    let back: StdHSVColor = HSVColor::new(AngleDeg(180_000), Frac(500_000), Frac(1_000_000));
    assert_eq!(back.conv::<AngleDeg, Frac>().tuple(), (AngleDeg(180_000), Frac(500_000), Frac(1_000_000)));
}

#[test]
fn base_colors() {
    let red: StdHSVColor = HSVColor::from_base(BaseColor::Red);
    assert_eq!(red.tuple(), (AngleDeg(0), Frac(1_000_000), Frac(1_000_000)));
    let cyan: StdHSVColor = HSVColor::from_base(BaseColor::Cyan);
    assert_eq!(cyan.tuple(), (AngleDeg(180_000), Frac(1_000_000), Frac(1_000_000)));
    let grey: HSVColor<u8, u8, SRGBSpace> = HSVColor::from_base(BaseColor::Grey);
    assert_eq!(grey.tuple(), (0, 0, 128));
    let black: StdHSVColor = HSVColor::from_base(BaseColor::Black);
    assert_eq!(black.tuple(), (AngleDeg(0), Frac(0), Frac(0)));
    let yellow: HSVColor<AngleDeg, u8, SRGBSpace> = HSVColor::from_base(BaseColor::Yellow);
    assert_eq!(yellow.rgb().tuple(), (255, 255, 0));
}

#[test]
fn hsv_from_tuple_normalizes() {
    let c: StdHSVColor = HSVColor::from_tuple((AngleDeg(-90_000), Frac(500_000), Frac(500_000)));
    assert_eq!(c.tuple(), (AngleDeg(270_000), Frac(500_000), Frac(500_000)));
    let t = (AngleDeg(400_000), Frac(500_000), Frac(500_000));
    let r: StdHSVColor = HSVColor::from_tuple_ref(&t);
    assert_eq!(r.tuple(), (AngleDeg(40_000), Frac(500_000), Frac(500_000)));
    let d: StdHSVColor = HSVColor::default();
    assert_eq!(d.tuple(), (AngleDeg(0), Frac(0), Frac(0)));
}

#[test]
fn rgb_new_clamps_and_decomposes() {
    let c = SRGBColor::new(Frac(1_200_000), Frac(-5), Frac(300_000));
    assert_eq!(c.tuple(), (Frac(1_000_000), Frac(0), Frac(300_000)));
    let d = SRGB24Color::new(1, 2, 3);
    let v = d.channels();
    assert_eq!(v, vec![1, 2, 3]);
    assert_eq!(d.channels(), v);
    let wide: LinRGB48Color = LinRGB48Color::new(0, 32768, 65535);
    assert_eq!(wide.conv::<u8>().tuple(), (0, 128, 255));
}

#[test]
fn rgb_to_hsv() {
    let rgb = SRGB24Color::new(128, 255, 55);
    let hsv = rgb.conv::<Frac>().hsv::<AngleDeg>().normalize();
    let rgb2: SRGB24Color = hsv.rgb().conv();

    assert_eq!(rgb, rgb2);
}

#[test]
fn rgb_hsv_rgb_round_trip_sweep() {
    for r in (0..=255u8).step_by(3) {
        for g in (0..=255u8).step_by(3) {
            for b in (0..=255u8).step_by(3) {
                let rgb = SRGB24Color::new(r, g, b);
                let hsv: StdHSVColor = rgb.conv::<Frac>().hsv();
                assert!(hsv.is_normal());
                let back: SRGB24Color = hsv.rgb().conv();
                assert_eq!(back, SRGB24Color::new(r, g, b));
            }
        }
    }
}

#[test]
fn rgb_to_hsv_values() {
    let red: StdHSVColor = SRGBColor::new(Frac(1_000_000), Frac(0), Frac(0)).hsv();
    assert_eq!(red.tuple(), (AngleDeg(0), Frac(1_000_000), Frac(1_000_000)));
    let magenta_red: StdHSVColor = SRGBColor::new(Frac(1_000_000), Frac(0), Frac(500_000)).hsv();
    assert_eq!(magenta_red.tuple(), (AngleDeg(330_000), Frac(1_000_000), Frac(1_000_000)));
    let green: StdHSVColor = SRGBColor::new(Frac(400_000), Frac(800_000), Frac(400_000)).hsv();
    assert_eq!(green.tuple(), (AngleDeg(120_000), Frac(500_000), Frac(800_000)));
    let blue: StdHSVColor = SRGBColor::new(Frac(0), Frac(0), Frac(1_000_000)).hsv();
    assert_eq!(blue.tuple(), (AngleDeg(240_000), Frac(1_000_000), Frac(1_000_000)));
    let grey: StdHSVColor = SRGBColor::new(Frac(300_000), Frac(300_000), Frac(300_000)).hsv();
    assert_eq!(grey.tuple(), (AngleDeg(0), Frac(0), Frac(300_000)));
    let black: HSVColor<u8, u8, SRGBSpace> = SRGB24Color::new(0, 0, 0).hsv();
    assert_eq!(black.tuple(), (0, 0, 0));
}

#[test]
fn linear_base_colors() {
    let yellow: HSVColor<AngleDeg, Frac, LinearSpace> = HSVColor::from_base_linear(BaseColor::Yellow);
    assert_eq!(yellow.tuple(), (AngleDeg(60_000), Frac(1_000_000), Frac(1_000_000)));
    let magenta: HSVColor<AngleDeg, u8, LinearSpace> = HSVColor::from_base_linear(BaseColor::Magenta);
    assert_eq!(magenta.tuple(), (AngleDeg(300_000), 255, 255));
    let grey: HSVColor<u16, u16, LinearSpace> = HSVColor::from_base_linear(BaseColor::Grey);
    assert_eq!(grey.tuple(), (0, 0, 32768));
    let white: HSVColor<AngleDeg, Frac, LinearSpace> = HSVColor::from_base_linear(BaseColor::White);
    assert_eq!(white.tuple(), (AngleDeg(0), Frac(0), Frac(1_000_000)));
    let cyan = color::rgb::RGBColor::<Frac, LinearSpace>::from_base(BaseColor::Cyan);
    assert_eq!(cyan.tuple(), (Frac(0), Frac(1_000_000), Frac(1_000_000)));
}
