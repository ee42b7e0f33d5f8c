//! Color-space markers: carried in a color's type, never inspected at run time.
use vstd::prelude::*;

verus! {

/// Gamma-encoded, display-referred sRGB.
#[derive(Clone, Copy, Debug, PartialEq, Eq)]
pub struct SRGBSpace;

/// Linear-light RGB.
#[derive(Clone, Copy, Debug, PartialEq, Eq)]
pub struct LinearSpace;

} // verus!
