//! Color values over exact integer and fixed-point channel encodings.
//!
//! A `channel::Channel` is one color component with a range `[ch_zero, ch_max]`; values
//! of different channel types are rescaled into each other with `channel::conv`, which
//! rounds to the nearest step. `hsv::HSVColor` is always built in normal form (black
//! carries no hue or saturation, a grey carries no hue, every channel in range) and
//! converts to and from `rgb::RGBColor` by the hue-sector method. Color spaces are marker
//! types in `space` that a color carries in its type.
pub mod angle;
pub mod base;
pub mod channel;
pub mod frac;
pub mod hsv;
pub mod rgb;
pub mod space;
