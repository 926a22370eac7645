//! Fixed-point quantities shared by the scene's parts.
//!
//! Lengths are whole thousandths of a world unit, angles whole billionths of a
//! degree, colour channels whole thousandths of full intensity.

use vstd::prelude::*;

verus! {

/// One world unit.
pub const UNIT: i64 = 1000;

/// One degree.
pub const DEGREE: i64 = 1_000_000_000;

/// A point or displacement in space, in thousandths of a world unit.
#[derive(Clone, Copy, Debug, PartialEq, Eq, Structural)]
pub struct Vec3 {
    pub x: i64,
    pub y: i64,
    pub z: i64,
}

/// A colour, each channel in thousandths of full intensity.
#[derive(Clone, Copy, Debug, PartialEq, Eq, Structural)]
pub struct Color {
    pub r: u32,
    pub g: u32,
    pub b: u32,
    pub a: u32,
}

} // verus!
