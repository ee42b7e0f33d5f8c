//! The named base colors.
use vstd::prelude::*;

verus! {

/// The eight corners of the RGB cube and a middle grey.
#[derive(Clone, Copy, Debug, PartialEq, Eq)]
pub enum BaseColor {
    Black,
    Grey,
    White,
    Red,
    Yellow,
    Green,
    Cyan,
    Blue,
    Magenta,
}

/// The color as (hue in whole degrees, saturation and value in millionths).
pub open spec fn base_hsv(c: BaseColor) -> (int, int, int) {
    match c {
        BaseColor::Black => (0, 0, 0),
        BaseColor::Grey => (0, 0, 500_000),
        BaseColor::White => (0, 0, 1_000_000),
        BaseColor::Red => (0, 1_000_000, 1_000_000),
        BaseColor::Yellow => (60, 1_000_000, 1_000_000),
        BaseColor::Green => (120, 1_000_000, 1_000_000),
        BaseColor::Cyan => (180, 1_000_000, 1_000_000),
        BaseColor::Blue => (240, 1_000_000, 1_000_000),
        BaseColor::Magenta => (300, 1_000_000, 1_000_000),
    }
}

/// The color as (red, green, blue) in millionths.
pub open spec fn base_rgb(c: BaseColor) -> (int, int, int) {
    match c {
        BaseColor::Black => (0, 0, 0),
        BaseColor::Grey => (500_000, 500_000, 500_000),
        BaseColor::White => (1_000_000, 1_000_000, 1_000_000),
        BaseColor::Red => (1_000_000, 0, 0),
        BaseColor::Yellow => (1_000_000, 1_000_000, 0),
        BaseColor::Green => (0, 1_000_000, 0),
        BaseColor::Cyan => (0, 1_000_000, 1_000_000),
        BaseColor::Blue => (0, 0, 1_000_000),
        BaseColor::Magenta => (1_000_000, 0, 1_000_000),
    }
}

} // verus!
